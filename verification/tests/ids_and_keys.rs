use answer_form::ids::IdAllocator;
use answer_form::keys::is_enter;

#[test]
fn allocator_starts_at_zero_and_counts_up() {
    let mut ids = IdAllocator::new();
    assert_eq!(ids.allocate(), 0);
    assert_eq!(ids.allocate(), 1);
    assert_eq!(ids.allocate(), 2);
}

#[test]
fn allocator_starts_where_it_is_told() {
    let mut ids = IdAllocator::starting_at(100);
    assert_eq!(ids.allocate(), 100);
    assert_eq!(ids.allocate(), 101);
}

#[test]
fn allocator_has_identifiers_left_until_the_largest_is_out() {
    let mut ids = IdAllocator::new();
    assert!(ids.can_allocate());
    assert_eq!(ids.allocate(), 0);
    assert!(ids.can_allocate());

    let mut ids = IdAllocator::starting_at(usize::MAX - 1);
    assert!(ids.can_allocate());
    assert_eq!(ids.allocate(), usize::MAX - 1);
    assert!(ids.can_allocate());
    assert_eq!(ids.allocate(), usize::MAX);
    assert!(!ids.can_allocate());
}

#[test]
fn enter_is_told_apart_from_other_keys() {
    assert!(is_enter("Enter"));
    for key in ["", "enter", "ENTER", "Enter ", " Enter", "Ente", "Return", "a", "\n", "Tab"] {
        assert!(!is_enter(key));
    }
}
