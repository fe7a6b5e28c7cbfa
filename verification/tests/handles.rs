use atomic_box::handoff::{displace, share};
use atomic_box::AtomicBox;
use std::sync::atomic::{AtomicUsize, Ordering};
use std::sync::Arc;

/// A payload that counts how many of its kind were made and how many were destroyed.
struct Counted {
    tag: usize,
    destroyed: Arc<AtomicUsize>,
}

impl Counted {
    fn new(tag: usize, made: &Arc<AtomicUsize>, destroyed: &Arc<AtomicUsize>) -> Counted {
        made.fetch_add(1, Ordering::SeqCst);
        Counted { tag, destroyed: destroyed.clone() }
    }
}

impl Drop for Counted {
    fn drop(&mut self) {
        self.destroyed.fetch_add(1, Ordering::SeqCst);
    }
}

#[test]
fn load_after_new_gives_the_initial_value() {
    let b = AtomicBox::new(String::from("first"));
    assert_eq!(*b.load(), "first");
    assert_eq!(*b.load(), "first");
}

#[test]
fn load_after_store_gives_the_stored_value() {
    let b = AtomicBox::new(vec![1u8, 2, 3]);
    b.store(vec![4u8, 5]);
    assert_eq!(*b.load(), vec![4u8, 5]);
}

#[test]
fn swap_after_store_gives_the_stored_value() {
    let b = AtomicBox::new(10u32);
    b.store(20);
    let displaced = b.swap(30);
    assert_eq!(**displaced, 20);
    assert_eq!(*b.load(), 30);
}

#[test]
fn swaps_give_out_each_value_once_in_turn() {
    let b = AtomicBox::new(0usize);
    for i in 1..100usize {
        assert_eq!(**b.swap(i), i - 1);
    }
    assert_eq!(*b.load(), 99);
}

#[test]
fn load_shares_the_cell_with_the_box() {
    let b = AtomicBox::new(vec![7u64; 3]);
    let first = b.load();
    assert_eq!(Arc::strong_count(&first), 2);
    let second = b.load();
    assert!(Arc::ptr_eq(&first, &second));
    assert_eq!(Arc::strong_count(&first), 3);
    drop(second);
    assert_eq!(Arc::strong_count(&first), 2);
}

#[test]
fn swap_takes_the_cell_over_from_the_box() {
    let b = AtomicBox::new(vec![7u64; 3]);
    let seen = b.load();
    let displaced = b.swap(vec![8u64; 3]);
    assert!(Arc::ptr_eq(&seen, &displaced));
    assert_eq!(Arc::strong_count(&seen), 2);
    drop(displaced);
    assert_eq!(Arc::strong_count(&seen), 1);
    assert_eq!(Arc::strong_count(&b.load()), 2);
}

#[test]
fn store_releases_the_displaced_cell() {
    let b = AtomicBox::new(vec![7u64; 3]);
    let seen = b.load();
    assert_eq!(Arc::strong_count(&seen), 2);
    b.store(vec![8u64; 3]);
    assert_eq!(Arc::strong_count(&seen), 1);
    assert_eq!(*seen, vec![7u64; 3]);
}

#[test]
fn handle_outlives_replacement() {
    let b = AtomicBox::new(vec![42usize; 16]);
    let kept = b.load();
    for i in 0..10_000usize {
        b.store(vec![i; 16]);
    }
    assert_eq!(*kept, vec![42usize; 16]);
    assert_eq!(Arc::strong_count(&kept), 1);
    assert_eq!(*b.load(), vec![9_999usize; 16]);
}

#[test]
fn every_cell_is_destroyed_exactly_once() {
    let made = Arc::new(AtomicUsize::new(0));
    let destroyed = Arc::new(AtomicUsize::new(0));
    {
        let b = AtomicBox::new(Counted::new(0, &made, &destroyed));
        let mut handles = Vec::new();
        for i in 1..50usize {
            handles.push(b.load());
            if i % 2 == 0 {
                b.store(Counted::new(i, &made, &destroyed));
            } else {
                handles.push(*b.swap(Counted::new(i, &made, &destroyed)));
            }
        }
        assert_eq!(made.load(Ordering::SeqCst), 50);
        assert!(destroyed.load(Ordering::SeqCst) < 50);
        assert_eq!(b.load().tag, 49);
        drop(handles);
        assert_eq!(destroyed.load(Ordering::SeqCst), 49);
    }
    assert_eq!(made.load(Ordering::SeqCst), 50);
    assert_eq!(destroyed.load(Ordering::SeqCst), 50);
}

#[test]
fn dropping_the_box_releases_its_cell() {
    let made = Arc::new(AtomicUsize::new(0));
    let destroyed = Arc::new(AtomicUsize::new(0));
    let b = AtomicBox::new(Counted::new(0, &made, &destroyed));
    let kept = b.load();
    drop(b);
    assert_eq!(destroyed.load(Ordering::SeqCst), 0);
    assert_eq!(Arc::strong_count(&kept), 1);
    drop(kept);
    assert_eq!(destroyed.load(Ordering::SeqCst), 1);
}

#[test]
fn store_destroys_a_cell_that_nobody_else_holds() {
    let made = Arc::new(AtomicUsize::new(0));
    let destroyed = Arc::new(AtomicUsize::new(0));
    let b = AtomicBox::new(Counted::new(0, &made, &destroyed));
    b.store(Counted::new(1, &made, &destroyed));
    assert_eq!(destroyed.load(Ordering::SeqCst), 1);
    let displaced = b.swap(Counted::new(2, &made, &destroyed));
    assert_eq!(displaced.tag, 1);
    assert_eq!(destroyed.load(Ordering::SeqCst), 1);
    drop(displaced);
    assert_eq!(destroyed.load(Ordering::SeqCst), 2);
}

#[test]
fn share_makes_one_more_handle_on_the_cell_found() {
    let found = Arc::new(vec![1i32, 2, 3]);
    let handle = share(&found);
    assert!(Arc::ptr_eq(&found, &handle));
    assert_eq!(Arc::strong_count(&found), 2);
    assert_eq!(*handle, vec![1i32, 2, 3]);
}

#[test]
fn displace_leaves_the_fresh_cell_and_hands_out_the_one_found() {
    let first = Arc::new(String::from("found"));
    let witness = first.clone();
    let mut slot = first;
    let fresh = Arc::new(String::from("fresh"));
    let displaced = displace(&mut slot, fresh);
    assert_eq!(*displaced, "found");
    assert_eq!(*slot, "fresh");
    assert!(Arc::ptr_eq(&witness, &displaced));
    assert_eq!(Arc::strong_count(&displaced), 2);
    assert_eq!(Arc::strong_count(&slot), 1);
}

#[test]
fn box_of_an_empty_value() {
    let b = AtomicBox::new(Vec::<u8>::new());
    assert!(b.load().is_empty());
    assert!(b.swap(Vec::new()).is_empty());
    b.store(vec![1]);
    assert_eq!(*b.load(), vec![1u8]);
}

#[test]
fn box_shared_through_a_reference() {
    let b = AtomicBox::new(1u64);
    let reader = &b;
    let writer = &b;
    writer.store(2);
    assert_eq!(*reader.load(), 2);
    assert_eq!(**writer.swap(3), 2);
    assert_eq!(*reader.load(), 3);
}
