//! What callers are handed, over every order in which operations are served.
//!
//! A box serves one operation at a time, so what the callers of a box see is what some order
//! of their operations gives. A history is such an order: the payload that the box was made
//! with, and the operations in the order in which they were served. The laws below hold of
//! every history, and so of every way in which threads may take turns.
use crate::handoff::Operation;
use crate::rule::Rule;
use vstd::multiset::Multiset;
use vstd::prelude::*;

verus! {

/// The cell that a box holds after the operations in `served` have been served in that
/// order, where the box was made with `initial`.
pub open spec fn content_after<T>(initial: T, served: Seq<Operation<T>>) -> T
    decreases served.len(),
{
    if served.len() == 0 {
        initial
    } else {
        served.last().leaves(content_after(initial, served.drop_last()))
    }
}

/// The cell that the caller of `served[i]` gets a handle on.
pub open spec fn handed<T>(initial: T, served: Seq<Operation<T>>, i: int) -> T
    recommends
        0 <= i < served.len(),
{
    served[i].hands(content_after(initial, served.take(i)))
}

/// The cells that were made for the box: the one it was made with, and one for each swap.
pub open spec fn entered<T>(initial: T, served: Seq<Operation<T>>) -> Multiset<T>
    decreases served.len(),
{
    if served.len() == 0 {
        Multiset::singleton(initial)
    } else {
        match served.last() {
            Operation::Load => entered(initial, served.drop_last()),
            Operation::Swap(fresh) => entered(initial, served.drop_last()).insert(fresh),
        }
    }
}

/// The cells that the box has given up: for each swap, the one whose handle went from the
/// slot to the swap's caller.
pub open spec fn given_up<T>(initial: T, served: Seq<Operation<T>>) -> Multiset<T>
    decreases served.len(),
{
    if served.len() == 0 {
        Multiset::empty()
    } else {
        match served.last() {
            Operation::Load => given_up(initial, served.drop_last()),
            Operation::Swap(_) => given_up(initial, served.drop_last()).insert(
                handed(initial, served, served.len() - 1),
            ),
        }
    }
}

/// The cell that a box holds is the one it was made with, or one that a swap put in.
proof fn lemma_content_was_stored<T>(initial: T, served: Seq<Operation<T>>)
    ensures
        content_after(initial, served) == initial || exists|j: int|
            0 <= j < served.len() && served[j] == Operation::Swap(
                content_after(initial, served),
            ),
    decreases served.len(),
{
    if served.len() > 0 {
        let before = served.drop_last();
        let last = served.len() - 1;
        match served.last() {
            Operation::Load => {
                lemma_content_was_stored(initial, before);
                let found = content_after(initial, before);
                if found != initial {
                    let j = choose|j: int|
                        0 <= j < before.len() && before[j] == Operation::Swap(found);
                    assert(served[j] == Operation::Swap(found));
                }
            },
            Operation::Swap(fresh) => {
                assert(served[last] == Operation::Swap(fresh));
            },
        }
    }
}

/// No caller is ever handed a cell that was not stored: whatever was served before it, an
/// operation is handed the cell that the box was made with, or a cell that an earlier swap
/// put in, whole.
pub proof fn law_handed_cell_was_stored<T>(initial: T, served: Seq<Operation<T>>, i: int)
    requires
        0 <= i < served.len(),
    ensures
        handed(initial, served, i) == initial || exists|j: int|
            0 <= j < i && served[j] == Operation::Swap(handed(initial, served, i)),
{
    let before = served.take(i);
    let found = content_after(initial, before);
    lemma_content_was_stored(initial, before);
    if found != initial {
        let j = choose|j: int| 0 <= j < before.len() && before[j] == Operation::Swap(found);
        assert(served[j] == Operation::Swap(found));
    }
}

/// Where the payload that a box was made with and every payload that a swap put in meet a
/// rule, every cell that is handed out meets it.
pub proof fn law_handed_cell_is_admitted<T, R: Rule<T>>(
    initial: T,
    served: Seq<Operation<T>>,
    i: int,
)
    requires
        0 <= i < served.len(),
        R::admits(initial),
        forall|j: int, fresh: T|
            0 <= j < served.len() && served[j] == Operation::Swap(fresh) ==> R::admits(fresh),
    ensures
        R::admits(handed(initial, served, i)),
{
    law_handed_cell_was_stored(initial, served, i);
}

/// The first operation on a box is handed the cell that the box was made with.
pub proof fn law_first_is_handed_initial<T>(initial: T, served: Seq<Operation<T>>)
    requires
        served.len() > 0,
    ensures
        handed(initial, served, 0) == initial,
{
    assert(served.take(0) =~= Seq::empty());
}

/// The operation that is served right after a swap is handed the cell that the swap put in.
pub proof fn law_next_is_handed_swapped_in<T>(
    initial: T,
    served: Seq<Operation<T>>,
    i: int,
    fresh: T,
)
    requires
        0 < i < served.len(),
        served[i - 1] == Operation::Swap(fresh),
    ensures
        handed(initial, served, i) == fresh,
{
    let before = served.take(i);
    assert(before.last() == served[i - 1]);
}

/// A load leaves the box as it found it: the operation that is served right after a load is
/// handed the same cell as the load.
pub proof fn law_load_leaves_cell<T>(initial: T, served: Seq<Operation<T>>, i: int)
    requires
        0 < i < served.len(),
        served[i - 1] == Operation::<T>::Load,
    ensures
        handed(initial, served, i) == handed(initial, served, i - 1),
{
    let before = served.take(i);
    assert(before.last() == served[i - 1]);
    assert(before.drop_last() =~= served.take(i - 1));
}

/// On a box made with `first`, after `second` is stored, a swap is handed `second`, and a
/// load that follows it is handed what the swap put in.
pub proof fn law_swap_hands_displaced<T>(first: T, second: T, third: T)
    ensures
        ({
            let served = seq![
                Operation::Swap(second),
                Operation::Swap(third),
                Operation::<T>::Load,
            ];
            &&& handed(first, served, 0) == first
            &&& handed(first, served, 1) == second
            &&& handed(first, served, 2) == third
            &&& content_after(first, served) == third
        }),
{
    let served = seq![Operation::Swap(second), Operation::Swap(third), Operation::<T>::Load];
    law_first_is_handed_initial(first, served);
    law_next_is_handed_swapped_in(first, served, 1, second);
    law_next_is_handed_swapped_in(first, served, 2, third);
    assert(served.drop_last().last() == served[1]);
}

/// A load on a box made with `first` is handed `first`; after `second` is stored, a load is
/// handed `second`.
pub proof fn law_load_hands_current<T>(first: T, second: T)
    ensures
        ({
            let served = seq![
                Operation::<T>::Load,
                Operation::Swap(second),
                Operation::<T>::Load,
            ];
            &&& handed(first, served, 0) == first
            &&& handed(first, served, 2) == second
        }),
{
    let served = seq![Operation::<T>::Load, Operation::Swap(second), Operation::<T>::Load];
    law_first_is_handed_initial(first, served);
    law_next_is_handed_swapped_in(first, served, 2, second);
}

/// What a caller was handed stays what it is, whatever is served afterwards: the operations
/// in `later`, however many, do not change what `served[i]` was handed.
pub proof fn law_handed_outlives_replacement<T>(
    initial: T,
    served: Seq<Operation<T>>,
    later: Seq<Operation<T>>,
    i: int,
)
    requires
        0 <= i < served.len(),
    ensures
        handed(initial, served + later, i) == handed(initial, served, i),
{
    assert((served + later).take(i) =~= served.take(i));
}

/// Every cell that was made for a box is given up exactly once or is the one that the box
/// still holds: none is lost and none is given up twice. The box releases the one it still
/// holds when it is dropped.
pub proof fn law_cells_balance<T>(initial: T, served: Seq<Operation<T>>)
    ensures
        entered(initial, served) == given_up(initial, served).insert(
            content_after(initial, served),
        ),
    decreases served.len(),
{
    broadcast use vstd::multiset::group_multiset_axioms;

    if served.len() == 0 {
        assert(Multiset::singleton(initial) =~= Multiset::empty().insert(initial));
    } else {
        let before = served.drop_last();
        law_cells_balance(initial, before);
        assert(served.take(served.len() - 1) =~= before);
    }
}

} // verus!
