use slice_queue::should_shrink;
use slice_queue::SHRINK_LEN_FLOOR;

#[test]
fn floor_guards_small_queues() {
    assert_eq!(SHRINK_LEN_FLOOR, 4);
    assert!(!should_shrink(4, 100, usize::MAX));
    assert!(!should_shrink(0, 100, usize::MAX));
}

#[test]
fn half_capacity_triggers_shrink() {
    assert!(should_shrink(5, 10, usize::MAX));
    assert!(should_shrink(8, 16, usize::MAX));
    assert!(!should_shrink(9, 16, usize::MAX));
}

#[test]
fn capacity_above_limit_triggers_shrink() {
    assert!(should_shrink(5, 6, 5));
    assert!(!should_shrink(5, 6, 6));
}

#[test]
fn zero_capacity_never_halves() {
    assert!(!should_shrink(5, 0, usize::MAX));
}
