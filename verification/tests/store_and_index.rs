use recycle_list::height_store::HeightStore;
use recycle_list::prefix_index::PrefixIndex;

#[test]
fn prefix_entries_match_exact_sum() {
    let mut store = HeightStore::new(3, 100);
    assert!(store.set(1, 200));
    assert!(store.set(2, 50));
    let index = PrefixIndex::build(&store);
    assert_eq!(index.row_count(), 3);
    assert_eq!(index.height_before(0), 0);
    assert_eq!(index.height_before(1), 100);
    assert_eq!(index.height_before(2), 300);
    assert_eq!(index.height_before(3), 350);
    assert_eq!(index.total_height(), 350);
}

#[test]
fn zero_height_counts_as_one_pixel() {
    let mut store = HeightStore::new(2, 100);
    assert!(store.set(0, 0));
    assert!(store.set(1, 0));
    let index = PrefixIndex::build(&store);
    assert_eq!(index.height_before(1), 1);
    assert_eq!(index.total_height(), 2);
}

#[test]
fn saturating_sum_caps_at_u32_max() {
    let mut store = HeightStore::new(3, 7);
    assert!(store.set(0, u32::MAX));
    assert!(store.set(1, u32::MAX));
    let index = PrefixIndex::build(&store);
    assert_eq!(index.height_before(1), u32::MAX);
    assert_eq!(index.total_height(), u32::MAX);
}

#[test]
fn row_at_offset_finds_spanning_row() {
    let store = HeightStore::new(20, 100);
    let index = PrefixIndex::build(&store);
    assert_eq!(index.row_at_offset(0), 0);
    assert_eq!(index.row_at_offset(99), 0);
    assert_eq!(index.row_at_offset(100), 1);
    assert_eq!(index.row_at_offset(1999), 19);
}

#[test]
fn row_at_offset_on_varied_heights() {
    let mut store = HeightStore::new(3, 10);
    assert!(store.set(1, 20));
    assert!(store.set(2, 30));
    let index = PrefixIndex::build(&store);
    assert_eq!(index.row_at_offset(9), 0);
    assert_eq!(index.row_at_offset(10), 1);
    assert_eq!(index.row_at_offset(29), 1);
    assert_eq!(index.row_at_offset(30), 2);
    assert_eq!(index.row_at_offset(59), 2);
}

#[test]
fn first_row_with_cumulative_ge_clamps_to_total() {
    let mut store = HeightStore::new(3, 10);
    assert!(store.set(1, 20));
    assert!(store.set(2, 30));
    let index = PrefixIndex::build(&store);
    assert_eq!(index.first_row_with_cumulative_ge(0), 0);
    assert_eq!(index.first_row_with_cumulative_ge(1), 1);
    assert_eq!(index.first_row_with_cumulative_ge(10), 1);
    assert_eq!(index.first_row_with_cumulative_ge(11), 2);
    assert_eq!(index.first_row_with_cumulative_ge(30), 2);
    assert_eq!(index.first_row_with_cumulative_ge(31), 3);
    assert_eq!(index.first_row_with_cumulative_ge(60), 3);
    assert_eq!(index.first_row_with_cumulative_ge(61), 3);
}

#[test]
fn store_set_out_of_range_is_noop() {
    let mut store = HeightStore::new(3, 100);
    assert!(!store.set(3, 55));
    assert!(!store.set(1000, 55));
    assert_eq!(store.len(), 3);
    assert_eq!(store.get(2), 100);
}

#[test]
fn store_set_same_value_reports_unchanged() {
    let mut store = HeightStore::new(3, 100);
    assert!(!store.set(1, 100));
    assert!(store.set(1, 101));
    assert!(!store.set(1, 101));
}

#[test]
fn store_resize_preserves_surviving_rows() {
    let mut store = HeightStore::new(5, 7);
    assert!(store.set(2, 9));
    store.resize(3, 7);
    assert_eq!(store.len(), 3);
    assert_eq!(store.get(2), 9);
    store.resize(6, 8);
    assert_eq!(store.len(), 6);
    assert_eq!(store.get(2), 9);
    assert_eq!(store.get(3), 8);
    assert_eq!(store.get(5), 8);
}
