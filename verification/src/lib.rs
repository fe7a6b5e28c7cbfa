//! A box that holds one value behind a shared handle, and lets any number of threads read
//! the value or replace it whole.
//!
//! The value lives in a reference-counted cell. The box keeps one handle on the cell it
//! holds; `load` gives out one more handle on that cell, and `swap` puts a fresh cell in its
//! place and gives out the handle that the box had. A handle keeps its cell alive for as long
//! as its owner keeps it, however often the box is given another value in the meantime.
//!
//! The operations of all threads are served one at a time: each takes the box's handle out of
//! the slot and puts a handle back, and while the slot is empty every other operation spins.
//! [`handoff`] states what one operation does with the cell it finds, and [`history`] what
//! follows for every order in which operations are served.
//!
//! Which cell an operation finds depends on the other threads, so the contracts of the box
//! say what holds of every cell it can find: it is one that the box's [`rule`] admits. An
//! `AtomicBox<T>` admits every payload; an `AtomicBox<T, R>` admits those that `R` admits.
use crate::handoff::displace;
use crate::handoff::share;
use crate::rule::OnCells;
use crate::rule::Open;
use crate::rule::Rule;
use crate::sync::possess;
use std::marker::PhantomData;
use std::sync::Arc;
use vstd::prelude::*;
use vstd::rwlock::RwLock;

pub mod handoff;
pub mod history;
pub mod rule;
pub mod sync;

verus! {

/// A box that several threads can read and update through a shared reference.
///
/// The box always holds exactly one cell, with a payload that `R` admits. When the box is
/// dropped, it releases its handle on that cell.
#[verifier::reject_recursive_types(T)]
#[verifier::reject_recursive_types(R)]
pub struct AtomicBox<T, R: Rule<T> = Open> {
    slot: RwLock<Arc<T>, OnCells<R>>,
    made_with: Ghost<T>,
}

impl<T> AtomicBox<T, Open> {
    /// Makes a box that holds `data` in a fresh cell and admits every payload.
    pub fn new(data: T) -> (made: AtomicBox<T>)
        ensures
            made.initial() == data,
    {
        AtomicBox::admitting(data)
    }
}

impl<T, R: Rule<T>> AtomicBox<T, R> {
    /// The payload that the box was made with: where every history of the box starts.
    pub closed spec fn initial(&self) -> T {
        self.made_with@
    }

    /// Makes a box that holds `data` in a fresh cell and admits what `R` admits.
    pub fn admitting(data: T) -> (made: AtomicBox<T, R>)
        requires
            R::admits(data),
        ensures
            made.initial() == data,
    {
        let ghost rule = OnCells::<R> { rule: PhantomData };
        AtomicBox { slot: RwLock::new(Arc::new(data), Ghost(rule)), made_with: Ghost(data) }
    }

    /// Gives a handle on the cell that the box holds when the load is served.
    ///
    /// Which cell that is depends on the other threads; whichever it is, it is one that the
    /// box admits. [`share`] states which handle is given for each cell that may be found.
    pub fn load(&self) -> (handle: Arc<T>)
        ensures
            R::admits(*handle),
    {
        let (found, possession) = possess(&self.slot);
        let handle = share(&found);
        possession.release_write(found);
        handle
    }

    /// Puts `data` in the box. The box's handle on the cell it held before is released, and
    /// that cell is reclaimed once its last handle is gone.
    pub fn store(&self, data: T)
        requires
            R::admits(data),
    {
        let displaced = self.swap(data);
        let _ = displaced;
    }

    /// Puts `data` in the box and gives out the handle that the box had on the cell it held
    /// when the swap is served.
    ///
    /// The fresh cell is made before the slot is touched, and the result is boxed after the
    /// slot is free again. Which cell is displaced depends on the other threads; whichever it
    /// is, it is one that the box admits. [`displace`] states what is left in the slot and
    /// what is given out for each cell that may be found.
    pub fn swap(&self, data: T) -> (displaced: Box<Arc<T>>)
        requires
            R::admits(data),
        ensures
            R::admits(**displaced),
    {
        let fresh = Arc::new(data);
        let (found, possession) = possess(&self.slot);
        let mut held = found;
        let displaced = displace(&mut held, fresh);
        possession.release_write(held);
        Box::new(displaced)
    }
}

impl<T, R: Rule<T>> Drop for AtomicBox<T, R> {
    /// Takes the box's handle out of the slot and releases it, by a call of
    /// `vstd::rwlock::RwLock::acquire_write`: the lock would keep the handle for ever.
    ///
    /// The body is not proved. The verifier asks of a destructor that it neither unwinds nor
    /// opens an invariant, and vstd's lock promises neither of `acquire_write`. That call
    /// has nothing in it that panics, and the invariants it opens are the lock's own, which
    /// no caller of a destructor can have open. It returns at once: a box that is dropped
    /// has no operation under way, so the slot holds a handle.
    #[verifier::external_body]
    fn drop(&mut self)
        opens_invariants none
        no_unwind
    {
        let (held, _possession) = self.slot.acquire_write();
        let _ = held;
    }
}

} // verus!
