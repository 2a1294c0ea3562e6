use slice_queue::Bounds;
use slice_queue::EndBound;
use slice_queue::SliceQueue;
use slice_queue::StartBound;

fn five() -> SliceQueue<i32> {
    let mut q = SliceQueue::new();
    assert!(q.push_n(vec![1, 2, 3, 4, 5]).is_ok());
    q
}

#[test]
fn unbounded_bounds_cover_everything() {
    let q = five();
    let b = Bounds { start: StartBound::Unbounded, end: EndBound::Unbounded };
    assert_eq!(q.range_from_bounds(b), (0, 5));
}

#[test]
fn included_start_excluded_end() {
    let q = five();
    let b = Bounds { start: StartBound::Included(2), end: EndBound::Excluded(4) };
    assert_eq!(q.range_from_bounds(b), (2, 4));
    assert_eq!(q.get_range(b), &[3, 4]);
}

#[test]
fn included_end_translates_by_subtracting_one() {
    let q = five();
    let b = Bounds { start: StartBound::Unbounded, end: EndBound::Included(3) };
    assert_eq!(q.range_from_bounds(b), (0, 2));
    assert_eq!(q.get_range(b), &[1, 2]);
}

#[test]
fn unbounded_end_tracks_current_length() {
    let mut q = five();
    let b = Bounds { start: StartBound::Included(1), end: EndBound::Unbounded };
    assert_eq!(q.range_from_bounds(b), (1, 5));
    q.discard_n(2);
    assert_eq!(q.range_from_bounds(b), (1, 3));
    assert_eq!(q.get_range(b), &[4, 5]);
}

#[test]
fn empty_extent_is_allowed() {
    let q = five();
    let b = Bounds { start: StartBound::Included(3), end: EndBound::Excluded(3) };
    assert_eq!(q.range_from_bounds(b), (3, 3));
    assert_eq!(q.get_range(b), &[] as &[i32]);
}
