use atomic_box::AtomicBox;
use std::mem;

#[test]
fn test_new() {
    let b = AtomicBox::new(vec![0; 5]);
    mem::forget(b); // forget b so we don't run the destructor
}

#[test]
fn test_load() {
    let b = AtomicBox::new(vec![0; 5]);
    assert!(*b.load() == vec![0; 5]);
    mem::forget(b); // forget b so we don't run the destructor
}

#[test]
fn test_swap() {
    let b = AtomicBox::new(vec![0; 5]);
    assert!(**b.swap(vec![1; 5]) == vec![0; 5]);
    assert!(*b.load() == vec![1; 5]);
    mem::forget(b); // forget b so we don't run the destructor
}

#[test]
fn test_destructor() {
    let b = AtomicBox::new(vec![0; 5]);
    mem::drop(b);
}
