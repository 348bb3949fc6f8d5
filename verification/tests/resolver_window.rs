use recycle_list::height_store::HeightStore;
use recycle_list::prefix_index::PrefixIndex;
use recycle_list::resolver::resolve;

#[test]
fn scenario_uniform_start_of_list() {
    // 2000 rows of 100px, viewport 800px, buffer 12 rows = 1200px, scroll 0.
    let store = HeightStore::new(2000, 100);
    let index = PrefixIndex::build(&store);
    let w = resolve(&index, 0, 800, 1200);
    assert_eq!(w.render_start, 0);
    assert_eq!(w.end_idx, 20); // ceil((800 + 1200) / 100)
    assert_eq!(w.top_spacer, 0);
    assert_eq!(w.bottom_spacer, 200_000 - 2_000);
}

#[test]
fn scenario_uniform_mid_scroll() {
    // Same setup, scrolled to 5000px.
    let store = HeightStore::new(2000, 100);
    let index = PrefixIndex::build(&store);
    let w = resolve(&index, 5000, 800, 1200);
    assert_eq!(w.render_start, 38); // row at offset 5000 - 1200
    assert_eq!(index.row_at_offset(5000 - 1200), 38);
    assert_eq!(w.end_idx, 70); // first row whose cumulative height reaches 7000
    assert_eq!(w.top_spacer, index.height_before(38));
    assert_eq!(w.top_spacer, 3800);
}

#[test]
fn empty_list_gives_empty_window() {
    let store = HeightStore::new(0, 100);
    let index = PrefixIndex::build(&store);
    let w = resolve(&index, 777, 800, 1200);
    assert_eq!(w.render_start, 0);
    assert_eq!(w.end_idx, 0);
    assert_eq!(w.top_spacer, 0);
    assert_eq!(w.bottom_spacer, 0);
}

#[test]
fn single_row_always_rendered() {
    let store = HeightStore::new(1, 100);
    let index = PrefixIndex::build(&store);
    for scroll in [0u32, 1, 99, 100, 12_345, u32::MAX] {
        let w = resolve(&index, scroll, 10, 0);
        assert_eq!(w.render_start, 0);
        assert_eq!(w.end_idx, 1);
        assert_eq!(w.top_spacer, 0);
        assert_eq!(w.bottom_spacer, 0);
    }
}

#[test]
fn degenerate_range_keeps_one_row() {
    // With no viewport and no buffer, the end search collapses onto the start
    // row; the guard still renders exactly that row.
    let store = HeightStore::new(2, 100);
    let index = PrefixIndex::build(&store);
    let w = resolve(&index, 100, 0, 0);
    assert_eq!(w.render_start, 1);
    assert_eq!(w.end_idx, 2);
    assert_eq!(w.top_spacer, 100);
    assert_eq!(w.bottom_spacer, 0);
}

#[test]
fn spacers_partition_total_height() {
    let heights: [u32; 7] = [5, 50, 500, 5, 1, 999, 3];
    let mut store = HeightStore::new(7, 100);
    for (i, h) in heights.iter().enumerate() {
        store.set(i, *h);
    }
    let index = PrefixIndex::build(&store);
    let total_height = index.total_height();
    assert_eq!(total_height, heights.iter().sum::<u32>());
    for scroll in [0u32, 1, 54, 555, 1_562, 1_563, 40_000] {
        for viewport in [0u32, 1, 400, 10_000] {
            for buffer in [0u32, 30, 2_000] {
                let w = resolve(&index, scroll, viewport, buffer);
                let rendered: u32 = heights[w.render_start..w.end_idx].iter().sum();
                assert_eq!(w.top_spacer + rendered + w.bottom_spacer, total_height);
            }
        }
    }
}
