//! The virtualization engine.
//!
//! Owns the height store, the viewport state (scroll offset, viewport height,
//! buffer) and a memoized cumulative-height index. Measured row heights are
//! fed back through [`RecycleEngine::record_height`]; the index is rebuilt
//! lazily, on the next read, and only when a height actually changed, so
//! writing the same measurement twice never triggers a second rebuild.

use vstd::prelude::*;

use crate::height_store::HeightStore;
use crate::prefix_index::PrefixIndex;
use crate::prefix_index::cum_height;
use crate::px::max_px;
use crate::px::max_u32;
use crate::px::sat_mul;
use crate::px::saturating_mul_u32;
use crate::px::usize_as_u32_sat;
use crate::px::usize_to_u32_saturating;
use crate::resolver::VisibleWindow;
use crate::resolver::resolve;
use crate::resolver::resolved;

verus! {

/// One list instance: its per-row heights, its viewport state, and the
/// memoized cumulative-height index with its dirty bit and rebuild counter.
pub struct RecycleEngine {
    heights: HeightStore,
    index: PrefixIndex,
    dirty: bool,
    rebuilds: u64,
    scroll_top: u32,
    viewport_px: u32,
    buffer_px: u32,
    estimated_height: u32,
}

impl RecycleEngine {
    /// The stored heights, one per row.
    pub closed spec fn heights(&self) -> Seq<u32> {
        self.heights@
    }

    /// Scroll offset relative to the list's own top, in pixels.
    pub closed spec fn scroll_top(&self) -> u32 {
        self.scroll_top
    }

    /// Last known viewport height, in pixels.
    pub closed spec fn viewport_px(&self) -> u32 {
        self.viewport_px
    }

    /// The buffer, in pixels, rendered beyond the viewport on each side.
    pub closed spec fn buffer_px(&self) -> u32 {
        self.buffer_px
    }

    /// The default height assumed for rows that were never measured.
    pub closed spec fn estimated_height(&self) -> u32 {
        self.estimated_height
    }

    /// How many times the cumulative-height index has been rebuilt since
    /// construction.
    pub closed spec fn rebuilds(&self) -> u64 {
        self.rebuilds
    }

    /// The memoized index still matches the heights: no rebuild is pending.
    pub closed spec fn is_fresh(&self) -> bool {
        !self.dirty
    }

    /// The viewport height the resolver actually uses: never below the
    /// estimated row height.
    pub open spec fn effective_viewport(&self) -> u32 {
        max_u32(self.viewport_px(), self.estimated_height())
    }

    /// The engine's invariant: the index is well formed, and while the dirty
    /// bit is clear it was built from exactly the stored heights.
    pub closed spec fn wf(&self) -> bool {
        &&& self.index.wf()
        &&& (!self.dirty ==> self.index.heights() == self.heights@)
        &&& self.estimated_height >= 1
    }

    /// A fresh engine: every row at the estimated height, scroll at the top,
    /// the viewport defaulted to eight estimated rows (the static fallback for
    /// hosts without a live scroll surface), and the buffer converted from row
    /// units to pixels.
    pub fn new(total: usize, buffer_rows: usize, estimated_height: u32) -> (engine: Self)
        requires
            estimated_height >= 1,
        ensures
            engine.wf(),
            engine.is_fresh(),
            engine.heights().len() == total,
            forall|i: int| 0 <= i < total ==> engine.heights()[i] == estimated_height,
            engine.scroll_top() == 0,
            engine.viewport_px() == sat_mul(estimated_height, 8),
            engine.buffer_px() == sat_mul(usize_as_u32_sat(buffer_rows), estimated_height),
            engine.estimated_height() == estimated_height,
            engine.rebuilds() == 0,
    {
        let heights = HeightStore::new(total, estimated_height);
        let index = PrefixIndex::build(&heights);
        let buffer_px = saturating_mul_u32(usize_to_u32_saturating(buffer_rows), estimated_height);
        RecycleEngine {
            heights,
            index,
            dirty: false,
            rebuilds: 0,
            scroll_top: 0,
            viewport_px: saturating_mul_u32(estimated_height, 8),
            buffer_px,
            estimated_height,
        }
    }

    /// Keeps the store aligned with the caller's item count: surviving rows
    /// keep their measured heights, new rows take the estimate. A call with
    /// the current count changes nothing at all.
    pub fn set_row_count(&mut self, new_total: usize)
        requires
            old(self).wf(),
        ensures
            final(self).wf(),
            final(self).heights().len() == new_total,
            forall|i: int|
                0 <= i < new_total && i < old(self).heights().len() ==> final(self).heights()[i]
                    == old(self).heights()[i],
            forall|i: int|
                old(self).heights().len() <= i < new_total ==> final(self).heights()[i] == old(
                    self,
                ).estimated_height(),
            old(self).heights().len() == new_total ==> *final(self) == *old(self),
            final(self).scroll_top() == old(self).scroll_top(),
            final(self).viewport_px() == old(self).viewport_px(),
            final(self).buffer_px() == old(self).buffer_px(),
            final(self).estimated_height() == old(self).estimated_height(),
            final(self).rebuilds() == old(self).rebuilds(),
    {
        if self.heights.len() != new_total {
            let default_height = self.estimated_height;
            self.heights.resize(new_total, default_height);
            self.dirty = true;
        }
    }

    /// The row-mount feedback loop's write-back: records a measured height.
    /// Out-of-range rows and unchanged values are no-ops — in particular,
    /// recording the same height twice leaves the engine exactly as one
    /// recording left it, so at most one rebuild ever follows.
    pub fn record_height(&mut self, row: usize, measured_px: u32) -> (changed: bool)
        requires
            old(self).wf(),
        ensures
            final(self).wf(),
            changed == (row < old(self).heights().len() && old(self).heights()[row as int]
                != measured_px),
            !changed ==> *final(self) == *old(self),
            changed ==> final(self).heights() == old(self).heights().update(
                row as int,
                measured_px,
            ),
            changed ==> !final(self).is_fresh(),
            final(self).heights().len() == old(self).heights().len(),
            final(self).scroll_top() == old(self).scroll_top(),
            final(self).viewport_px() == old(self).viewport_px(),
            final(self).buffer_px() == old(self).buffer_px(),
            final(self).estimated_height() == old(self).estimated_height(),
            final(self).rebuilds() == old(self).rebuilds(),
    {
        let changed = self.heights.set(row, measured_px);
        if changed {
            self.dirty = true;
        }
        changed
    }

    /// Sets the scroll offset, relative to the list's own top.
    pub fn set_scroll_top(&mut self, scroll_px: u32)
        requires
            old(self).wf(),
        ensures
            final(self).wf(),
            final(self).scroll_top() == scroll_px,
            final(self).heights() == old(self).heights(),
            final(self).is_fresh() == old(self).is_fresh(),
            final(self).viewport_px() == old(self).viewport_px(),
            final(self).buffer_px() == old(self).buffer_px(),
            final(self).estimated_height() == old(self).estimated_height(),
            final(self).rebuilds() == old(self).rebuilds(),
    {
        self.scroll_top = scroll_px;
    }

    /// Synchronizes the scroll offset from a page-global scroll position: the
    /// list's own top-of-page offset is subtracted, clamped to non-negative.
    pub fn sync_scroll_from_page(&mut self, page_scroll_y: u32, list_top_in_page: u32)
        requires
            old(self).wf(),
        ensures
            final(self).wf(),
            final(self).scroll_top() == page_scroll_y.saturating_sub(list_top_in_page),
            final(self).heights() == old(self).heights(),
            final(self).is_fresh() == old(self).is_fresh(),
            final(self).viewport_px() == old(self).viewport_px(),
            final(self).buffer_px() == old(self).buffer_px(),
            final(self).estimated_height() == old(self).estimated_height(),
            final(self).rebuilds() == old(self).rebuilds(),
    {
        self.scroll_top = page_scroll_y.saturating_sub(list_top_in_page);
    }

    /// Refreshes the viewport height from the host, clamped to at least one
    /// pixel.
    pub fn set_viewport_height(&mut self, viewport_px: u32)
        requires
            old(self).wf(),
        ensures
            final(self).wf(),
            final(self).viewport_px() == max_u32(viewport_px, 1),
            final(self).heights() == old(self).heights(),
            final(self).is_fresh() == old(self).is_fresh(),
            final(self).scroll_top() == old(self).scroll_top(),
            final(self).buffer_px() == old(self).buffer_px(),
            final(self).estimated_height() == old(self).estimated_height(),
            final(self).rebuilds() == old(self).rebuilds(),
    {
        self.viewport_px = max_px(viewport_px, 1);
    }

    /// Rebuilds the cumulative-height index if, and only if, a height changed
    /// since it was last built.
    pub fn refresh_index(&mut self)
        requires
            old(self).wf(),
        ensures
            final(self).wf(),
            final(self).is_fresh(),
            old(self).is_fresh() ==> *final(self) == *old(self),
            !old(self).is_fresh() ==> final(self).rebuilds() == old(self).rebuilds().saturating_add(
                1,
            ),
            final(self).heights() == old(self).heights(),
            final(self).scroll_top() == old(self).scroll_top(),
            final(self).viewport_px() == old(self).viewport_px(),
            final(self).buffer_px() == old(self).buffer_px(),
            final(self).estimated_height() == old(self).estimated_height(),
    {
        if self.dirty {
            self.index = PrefixIndex::build(&self.heights);
            self.dirty = false;
            self.rebuilds = self.rebuilds.saturating_add(1);
        }
    }

    /// One render pass: brings the index up to date (rebuilding only if a
    /// height changed) and resolves the visible window from the current
    /// scroll offset, the effective viewport and the buffer.
    pub fn window(&mut self) -> (w: VisibleWindow)
        requires
            old(self).wf(),
        ensures
            final(self).wf(),
            final(self).is_fresh(),
            resolved(
                old(self).heights(),
                old(self).scroll_top(),
                old(self).effective_viewport(),
                old(self).buffer_px(),
                w,
            ),
            old(self).is_fresh() ==> final(self).rebuilds() == old(self).rebuilds(),
            !old(self).is_fresh() ==> final(self).rebuilds() == old(self).rebuilds().saturating_add(
                1,
            ),
            final(self).heights() == old(self).heights(),
            final(self).scroll_top() == old(self).scroll_top(),
            final(self).viewport_px() == old(self).viewport_px(),
            final(self).buffer_px() == old(self).buffer_px(),
            final(self).estimated_height() == old(self).estimated_height(),
    {
        self.refresh_index();
        let viewport = max_px(self.viewport_px, self.estimated_height);
        resolve(&self.index, self.scroll_top, viewport, self.buffer_px)
    }

    /// Total content height under the current measurements.
    pub fn total_height(&mut self) -> (th: u32)
        requires
            old(self).wf(),
        ensures
            final(self).wf(),
            final(self).is_fresh(),
            th == cum_height(old(self).heights(), old(self).heights().len() as int),
            final(self).heights() == old(self).heights(),
            final(self).scroll_top() == old(self).scroll_top(),
            final(self).viewport_px() == old(self).viewport_px(),
            final(self).buffer_px() == old(self).buffer_px(),
            final(self).estimated_height() == old(self).estimated_height(),
            old(self).is_fresh() ==> final(self).rebuilds() == old(self).rebuilds(),
            !old(self).is_fresh() ==> final(self).rebuilds() == old(self).rebuilds().saturating_add(
                1,
            ),
    {
        self.refresh_index();
        self.index.total_height()
    }

    /// How many rows the engine currently tracks.
    pub fn row_count(&self) -> (total: usize)
        ensures
            total == self.heights().len(),
    {
        self.heights.len()
    }

    /// The height currently stored for one row.
    pub fn measured_height(&self, row: usize) -> (h: u32)
        requires
            row < self.heights().len(),
        ensures
            h == self.heights()[row as int],
    {
        self.heights.get(row)
    }

    /// How many index rebuilds have happened since construction.
    pub fn rebuild_count(&self) -> (n: u64)
        ensures
            n == self.rebuilds(),
    {
        self.rebuilds
    }

    /// The current scroll offset, relative to the list's top.
    pub fn current_scroll_top(&self) -> (s: u32)
        ensures
            s == self.scroll_top(),
    {
        self.scroll_top
    }
}

} // verus!
