use slab_item::Slot;

#[test]
fn new_slot_is_present() {
    let slot = Slot::new(7u32);
    assert!(slot.is_present());
    assert_eq!(*slot.get(), 7);
}

#[test]
fn empty_slot_is_not_present() {
    let slot: Slot<String> = Slot::empty();
    assert!(!slot.is_present());
    assert!(matches!(slot, Slot::Empty));
}

#[test]
fn get_mut_changes_in_place() {
    let mut slot = Slot::new(vec![1, 2]);
    slot.get_mut().push(3);
    assert!(slot.is_present());
    assert_eq!(*slot.get(), vec![1, 2, 3]);
}

#[test]
fn take_leaves_the_slot_vacant() {
    let mut slot = Slot::new(String::from("a"));
    let taken = slot.take();
    assert_eq!(taken, "a");
    assert!(!slot.is_present());
}

#[test]
fn fill_after_take() {
    let mut slot = Slot::new(1u8);
    assert_eq!(slot.take(), 1);
    slot.fill(2);
    assert!(slot.is_present());
    assert_eq!(*slot.get(), 2);
    assert_eq!(slot.into_value(), 2);
}

#[test]
fn into_value_hands_out_the_value() {
    let slot = Slot::new(Box::new(41u64));
    assert_eq!(*slot.into_value(), 41);
}
