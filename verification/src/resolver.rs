//! Range resolver.
//!
//! From the current scroll offset, the viewport height, the buffer size (in
//! pixels) and the cumulative-height index, computes the contiguous row range
//! to render and the two spacer sizes that stand in for everything outside it.

use vstd::prelude::*;

use crate::prefix_index::PrefixIndex;
use crate::prefix_index::cum_height;
use crate::prefix_index::exact_height;
use crate::prefix_index::is_first_at_or_after;
use crate::prefix_index::is_row_at;
use crate::prefix_index::lemma_cum_is_saturated_sum;
use crate::prefix_index::lemma_cum_monotonic;
use crate::prefix_index::lemma_total_height_positive;
use crate::px::min_px;
use crate::px::min_u32;

verus! {

/// The slice of the list to materialize: rows `render_start..end_idx`, below a
/// top spacer of `top_spacer` pixels and above a bottom spacer of
/// `bottom_spacer` pixels.
#[derive(Clone, Copy, Debug, PartialEq, Eq, Structural)]
pub struct VisibleWindow {
    pub render_start: usize,
    pub end_idx: usize,
    pub top_spacer: u32,
    pub bottom_spacer: u32,
}

/// The scroll offset clamped into `[0, total_height - 1]`.
pub open spec fn spec_clamped_scroll(heights: Seq<u32>, scroll_top: u32) -> u32 {
    min_u32(scroll_top, cum_height(heights, heights.len() as int).saturating_sub(1))
}

/// The offset whose row opens the window: the clamped scroll position, pulled
/// up by the buffer.
pub open spec fn spec_start_target(heights: Seq<u32>, scroll_top: u32, buffer_px: u32) -> u32 {
    spec_clamped_scroll(heights, scroll_top).saturating_sub(buffer_px)
}

/// The cumulative height at which the window may close: the clamped scroll
/// position, pushed down by the viewport and the buffer.
pub open spec fn spec_end_target(
    heights: Seq<u32>,
    scroll_top: u32,
    viewport_px: u32,
    buffer_px: u32,
) -> u32 {
    spec_clamped_scroll(heights, scroll_top).saturating_add(viewport_px).saturating_add(buffer_px)
}

/// What a resolver pass returns, pinned down for every input.
///
/// An empty list yields the empty window with zero spacers. Otherwise the
/// window opens at the unique row spanning the start target, closes at the
/// first row whose cumulative height reaches the end target (clamped to the
/// row count), forced one past the start when that search collapses onto or
/// before it, so at least one row is always rendered; the spacers are the
/// cumulative heights outside the range.
pub open spec fn resolved(
    heights: Seq<u32>,
    scroll_top: u32,
    viewport_px: u32,
    buffer_px: u32,
    w: VisibleWindow,
) -> bool {
    let total = heights.len() as int;
    &&& (total == 0 ==> w.render_start == 0 && w.end_idx == 0)
    &&& (total > 0 ==> is_row_at(
        heights,
        spec_start_target(heights, scroll_top, buffer_px),
        w.render_start as int,
    ))
    &&& (total > 0 ==> (exists|e: int|
        is_first_at_or_after(heights, spec_end_target(heights, scroll_top, viewport_px, buffer_px), e)
            && w.end_idx == (if e <= w.render_start {
            w.render_start + 1
        } else {
            e
        })))
    &&& (total > 0 ==> w.render_start < w.end_idx <= total)
    &&& w.top_spacer == cum_height(heights, w.render_start as int)
    &&& w.bottom_spacer == cum_height(heights, total) - cum_height(heights, w.end_idx as int)
}

/// One resolver pass.
pub fn resolve(index: &PrefixIndex, scroll_top: u32, viewport_px: u32, buffer_px: u32) -> (w:
    VisibleWindow)
    requires
        index.wf(),
    ensures
        resolved(index.heights(), scroll_top, viewport_px, buffer_px, w),
{
    let total = index.row_count();
    if total == 0 {
        return VisibleWindow { render_start: 0, end_idx: 0, top_spacer: 0, bottom_spacer: 0 };
    }
    let total_height = index.total_height();
    proof {
        lemma_total_height_positive(index.heights(), total as int);
    }
    let clamped_scroll = min_px(scroll_top, total_height - 1);
    let start_target = clamped_scroll.saturating_sub(buffer_px);
    let render_start = index.row_at_offset(start_target);

    let end_target = clamped_scroll.saturating_add(viewport_px).saturating_add(buffer_px);
    let first_at_end = index.first_row_with_cumulative_ge(end_target);
    let end_idx = if first_at_end <= render_start {
        render_start + 1
    } else {
        first_at_end
    };

    let top_spacer = index.height_before(render_start);
    let bottom = index.height_before(end_idx);
    proof {
        lemma_cum_monotonic(index.heights(), end_idx as int, total as int);
        assert(clamped_scroll == spec_clamped_scroll(index.heights(), scroll_top));
        assert(start_target == spec_start_target(index.heights(), scroll_top, buffer_px));
        let tgt = spec_end_target(index.heights(), scroll_top, viewport_px, buffer_px);
        assert(end_target == tgt);
        assert(is_first_at_or_after(index.heights(), tgt, first_at_end as int));
        assert(exists|e: int|
            is_first_at_or_after(index.heights(), tgt, e) && end_idx == (if e <= render_start {
                render_start + 1
            } else {
                e
            })) by {
            assert(is_first_at_or_after(index.heights(), tgt, first_at_end as int)
                && end_idx == (if first_at_end as int <= render_start {
                render_start + 1
            } else {
                first_at_end as int
            }));
        }
    }
    let bottom_spacer = total_height - bottom;
    VisibleWindow { render_start, end_idx, top_spacer, bottom_spacer }
}

/// After every resolver pass the top spacer, the cumulative height of the
/// rendered rows, and the bottom spacer partition the total content height, so
/// the scrollable region's size never jumps as rows are recycled in and out.
pub proof fn lemma_spacer_partition(
    heights: Seq<u32>,
    scroll_top: u32,
    viewport_px: u32,
    buffer_px: u32,
    w: VisibleWindow,
)
    requires
        resolved(heights, scroll_top, viewport_px, buffer_px, w),
    ensures
        w.top_spacer + (cum_height(heights, w.end_idx as int) - cum_height(
            heights,
            w.render_start as int,
        )) + w.bottom_spacer == cum_height(heights, heights.len() as int),
{
}

/// When the exact total height fits in `u32`, the partition holds over the
/// exact per-row sums as well: the spacers plus the summed heights of the
/// rendered rows (each counted as at least one pixel) give the total height.
pub proof fn lemma_spacer_partition_exact(
    heights: Seq<u32>,
    scroll_top: u32,
    viewport_px: u32,
    buffer_px: u32,
    w: VisibleWindow,
)
    requires
        resolved(heights, scroll_top, viewport_px, buffer_px, w),
        exact_height(heights, heights.len() as int) <= u32::MAX,
    ensures
        w.top_spacer + (exact_height(heights, w.end_idx as int)
            - exact_height(heights, w.render_start as int)) + w.bottom_spacer
            == exact_height(heights, heights.len() as int),
{
    let total = heights.len() as int;
    lemma_exact_monotonic(heights, w.render_start as int, total);
    lemma_exact_monotonic(heights, w.end_idx as int, total);
    lemma_cum_is_saturated_sum(heights, w.render_start as int);
    lemma_cum_is_saturated_sum(heights, w.end_idx as int);
    lemma_cum_is_saturated_sum(heights, total);
}

/// The exact sums grow with the row index.
pub proof fn lemma_exact_monotonic(heights: Seq<u32>, i: int, j: int)
    requires
        0 <= i <= j,
    ensures
        exact_height(heights, i) <= exact_height(
            heights,
            j,
        ),
    decreases j - i,
{
    if i < j {
        lemma_exact_monotonic(heights, i, j - 1);
    }
}

/// An empty list resolves to the empty window with both spacers zero.
pub proof fn lemma_empty_window(
    heights: Seq<u32>,
    scroll_top: u32,
    viewport_px: u32,
    buffer_px: u32,
    w: VisibleWindow,
)
    requires
        resolved(heights, scroll_top, viewport_px, buffer_px, w),
        heights.len() == 0,
    ensures
        w.render_start == 0,
        w.end_idx == 0,
        w.top_spacer == 0,
        w.bottom_spacer == 0,
{
}

/// A single-row list always renders its one row, whatever the scroll offset,
/// the viewport or the buffer.
pub proof fn lemma_single_row_always_visible(
    heights: Seq<u32>,
    scroll_top: u32,
    viewport_px: u32,
    buffer_px: u32,
    w: VisibleWindow,
)
    requires
        resolved(heights, scroll_top, viewport_px, buffer_px, w),
        heights.len() == 1,
    ensures
        w.render_start == 0,
        w.end_idx == 1,
{
}

} // verus!
