use cacao::bridge::DelegateSlot;

#[test]
fn slot_starts_unset() {
    let s = DelegateSlot::new();
    assert_eq!(s.addr(), 0);
    assert!(!s.is_set());
    assert_eq!(s.borrow_count(), 0);
    assert_eq!(s.destroy_count(), 0);
}

#[test]
fn slot_store_load_round_trip() {
    let mut s = DelegateSlot::new();
    s.store(0x1000);
    assert!(s.is_set());
    assert_eq!(s.load(), 0x1000);
    // One host callback: the borrow hands out the stored address and the
    // slot is unchanged afterwards.
    let borrowed = s.begin_callback();
    assert_eq!(borrowed, 0x1000);
    assert_eq!(s.borrow_count(), 1);
    s.end_callback();
    assert_eq!(s.borrow_count(), 0);
    assert_eq!(s.addr(), 0x1000);
    assert_eq!(s.destroy_count(), 0);
}

#[test]
fn slot_nested_borrows() {
    let mut s = DelegateSlot::new();
    s.store(0x2000);
    let a = s.begin_callback();
    let b = s.begin_callback();
    assert_eq!(a, 0x2000);
    assert_eq!(b, 0x2000);
    assert_eq!(s.borrow_count(), 2);
    s.end_callback();
    s.end_callback();
    assert_eq!(s.addr(), 0x2000);
}

#[test]
fn slot_unbind_drops_exactly_once() {
    let mut s = DelegateSlot::new();
    s.store(0x3000);
    assert_eq!(s.destroy_count(), 0);
    s.unbind();
    assert_eq!(s.destroy_count(), 1);
    assert!(!s.is_set());
    assert_eq!(s.addr(), 0);
    // A new attachment is a new container; reclaiming it is its own single
    // destruction.
    s.store(0x4000);
    s.unbind();
    assert_eq!(s.destroy_count(), 2);
}
