use std::cell::Cell;

use blend2d::util::{bl_range, fill_count, found_index, range_to_tuple, truncated_len, BlRange, Bound};

#[test]
fn range_to_tuple_of_half_open_range() {
    assert_eq!(range_to_tuple(Bound::Included(2), Bound::Excluded(5), || 99), (2, 5));
}

#[test]
fn range_to_tuple_of_inclusive_range() {
    assert_eq!(range_to_tuple(Bound::Included(1), Bound::Included(3), || 99), (1, 4));
}

#[test]
fn range_to_tuple_of_open_range_asks_for_length() {
    assert_eq!(range_to_tuple(Bound::Unbounded, Bound::Unbounded, || 7), (0, 7));
    assert_eq!(range_to_tuple(Bound::Included(3), Bound::Unbounded, || 10), (3, 10));
}

#[test]
fn range_to_tuple_asks_for_length_only_for_open_end() {
    let calls = Cell::new(0);
    let len = || {
        calls.set(calls.get() + 1);
        5
    };
    assert_eq!(range_to_tuple(Bound::Unbounded, Bound::Excluded(3), len), (0, 3));
    assert_eq!(calls.get(), 0);
    let len = || {
        calls.set(calls.get() + 1);
        5
    };
    assert_eq!(range_to_tuple(Bound::Unbounded, Bound::Unbounded, len), (0, 5));
    assert_eq!(calls.get(), 1);
}

#[test]
fn bl_range_of_bounds() {
    assert_eq!(bl_range(Bound::Included(2), Bound::Excluded(5), 9), BlRange { start: 2, end: 5 });
    assert_eq!(bl_range(Bound::Included(2), Bound::Included(5), 9), BlRange { start: 2, end: 6 });
    assert_eq!(bl_range(Bound::Unbounded, Bound::Unbounded, 9), BlRange { start: 0, end: 9 });
    assert_eq!(bl_range(Bound::Included(4), Bound::Unbounded, 9), BlRange { start: 4, end: 9 });
}

#[test]
fn empty_ranges_cover_no_index() {
    assert_eq!(bl_range(Bound::Unbounded, Bound::Excluded(0), 9), BlRange { start: 0, end: 0 });
    assert_eq!(range_to_tuple(Bound::Included(3), Bound::Excluded(3), || 9), (3, 3));
}

#[test]
fn truncation_never_grows_an_array() {
    assert_eq!(truncated_len(3, 10), 3);
    assert_eq!(truncated_len(10, 3), 3);
    assert_eq!(truncated_len(0, 0), 0);
    assert_eq!(truncated_len(usize::MAX, 4), 4);
}

#[test]
fn resize_of_empty_array_fills_every_item() {
    assert_eq!(fill_count(10, 0), 10);
}

#[test]
fn resize_fills_only_the_growth() {
    assert_eq!(fill_count(10, 4), 6);
    assert_eq!(fill_count(4, 10), 0);
    assert_eq!(fill_count(7, 7), 0);
}

#[test]
fn all_bits_set_means_not_found() {
    assert_eq!(found_index(usize::MAX), None);
    assert_eq!(found_index(0), Some(0));
    assert_eq!(found_index(42), Some(42));
}
