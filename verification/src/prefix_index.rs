//! Cumulative-height index.
//!
//! One forward pass over the height store yields `total + 1` cumulative
//! entries: entry `i` is the (saturating) pixel height of the first `i` rows.
//! Because every row counts as at least one pixel, the entries grow strictly
//! until they saturate, so the index answers both "height up to row i" and the
//! reverse lookup "which row spans offset y" by binary search.

use vstd::prelude::*;

use crate::height_store::HeightStore;
use crate::px::clamp_min1;
use crate::px::clamp_to_min1;

verus! {

/// Cumulative pixel height of the first `i` rows: each row contributes its
/// stored height, counted as at least one pixel, and the running total
/// saturates at `u32::MAX`.
pub open spec fn cum_height(heights: Seq<u32>, i: int) -> u32
    decreases i,
{
    if i <= 0 {
        0u32
    } else {
        cum_height(heights, i - 1).saturating_add(clamp_min1(heights[i - 1]))
    }
}

/// Exact (unbounded) sum of the first `i` clamped heights.
pub open spec fn exact_height(heights: Seq<u32>, i: int) -> int
    decreases i,
{
    if i <= 0 {
        0
    } else {
        exact_height(heights, i - 1) + clamp_min1(heights[i - 1])
    }
}

/// The cumulative height is the exact sum of the clamped heights whenever that
/// sum fits in `u32`, and exactly `u32::MAX` once it does not: saturation
/// under-counts, it never misorders.
pub proof fn lemma_cum_is_saturated_sum(heights: Seq<u32>, i: int)
    requires
        0 <= i,
    ensures
        exact_height(heights, i) <= u32::MAX ==> cum_height(heights, i) == exact_height(
            heights,
            i,
        ),
        exact_height(heights, i) > u32::MAX ==> cum_height(heights, i) == u32::MAX,
    decreases i,
{
    if i > 0 {
        lemma_cum_is_saturated_sum(heights, i - 1);
    }
}

/// Cumulative heights never decrease with the row index.
pub proof fn lemma_cum_monotonic(heights: Seq<u32>, i: int, j: int)
    requires
        0 <= i <= j,
    ensures
        cum_height(heights, i) <= cum_height(heights, j),
    decreases j - i,
{
    if i < j {
        lemma_cum_monotonic(heights, i, j - 1);
    }
}

/// A non-empty list has a positive total height.
pub proof fn lemma_total_height_positive(heights: Seq<u32>, i: int)
    requires
        1 <= i,
    ensures
        cum_height(heights, i) >= 1,
{
    lemma_cum_monotonic(heights, 1, i);
}

/// Row `i` spans offset `y`: the content above it ends at or before `y`, and
/// the content through it ends after `y`.
pub open spec fn is_row_at(heights: Seq<u32>, y: u32, i: int) -> bool {
    &&& 0 <= i < heights.len()
    &&& cum_height(heights, i) <= y
    &&& y < cum_height(heights, i + 1)
}

/// For a given offset there is at most one row that spans it.
pub proof fn lemma_row_at_unique(heights: Seq<u32>, y: u32, i: int, j: int)
    requires
        is_row_at(heights, y, i),
        is_row_at(heights, y, j),
    ensures
        i == j,
{
    if i < j {
        lemma_cum_monotonic(heights, i + 1, j);
    } else if j < i {
        lemma_cum_monotonic(heights, j + 1, i);
    }
}

/// `i` is the smallest row index whose cumulative height reaches `target`,
/// clamped to the row count when no index reaches it.
pub open spec fn is_first_at_or_after(heights: Seq<u32>, target: u32, i: int) -> bool {
    &&& 0 <= i <= heights.len()
    &&& (forall|j: int| 0 <= j < i ==> cum_height(heights, j) < target)
    &&& (i < heights.len() ==> cum_height(heights, i) >= target)
}

/// The clamped first index at or after a target is unique.
pub proof fn lemma_first_at_or_after_unique(heights: Seq<u32>, target: u32, i: int, j: int)
    requires
        is_first_at_or_after(heights, target, i),
        is_first_at_or_after(heights, target, j),
    ensures
        i == j,
{
}

/// Cumulative-height entries derived from a height store: entry 0 is 0, entry
/// `i` the saturating sum of the first `i` clamped heights, the last entry the
/// total content height. Read-only once built; rebuilt whenever the store
/// changes.
pub struct PrefixIndex {
    prefix: Vec<u32>,
    heights: Ghost<Seq<u32>>,
}

impl PrefixIndex {
    /// The heights this index was built from.
    pub closed spec fn heights(&self) -> Seq<u32> {
        self.heights@
    }

    /// The cumulative entries themselves.
    pub closed spec fn entries(&self) -> Seq<u32> {
        self.prefix@
    }

    /// The index matches its heights: `total + 1` entries, entry `i` the
    /// cumulative height of the first `i` rows.
    pub open spec fn wf(&self) -> bool {
        &&& self.entries().len() == self.heights().len() + 1
        &&& (forall|i: int|
            0 <= i <= self.heights().len() ==> self.entries()[i] == cum_height(self.heights(), i))
    }

    /// One forward pass over the store.
    pub fn build(store: &HeightStore) -> (index: Self)
        ensures
            index.wf(),
            index.heights() == store@,
    {
        let rows = store.get_all();
        let total = rows.len();
        let mut prefix: Vec<u32> = Vec::new();
        prefix.push(0);
        let mut acc: u32 = 0;
        let mut k: usize = 0;
        while k < total
            invariant
                k <= total,
                total == store@.len(),
                rows@ == store@,
                prefix@.len() == k + 1,
                acc == cum_height(store@, k as int),
                forall|i: int| 0 <= i <= k ==> prefix@[i] == cum_height(store@, i),
            decreases total - k,
        {
            let h = clamp_to_min1(rows[k]);
            acc = acc.saturating_add(h);
            prefix.push(acc);
            k = k + 1;
        }
        PrefixIndex { prefix, heights: Ghost(store@) }
    }

    /// How many rows the index covers.
    pub fn row_count(&self) -> (total: usize)
        requires
            self.wf(),
        ensures
            total == self.heights().len(),
    {
        self.prefix.len() - 1
    }

    /// Total content height: the last cumulative entry.
    pub fn total_height(&self) -> (th: u32)
        requires
            self.wf(),
        ensures
            th == cum_height(self.heights(), self.heights().len() as int),
    {
        self.prefix[self.prefix.len() - 1]
    }

    /// Cumulative height of the first `i` rows.
    pub fn height_before(&self, i: usize) -> (p: u32)
        requires
            self.wf(),
            i <= self.heights().len(),
        ensures
            p == cum_height(self.heights(), i as int),
    {
        self.prefix[i]
    }

    /// The row whose span contains offset `y`: the greatest index whose
    /// cumulative height is at most `y`. Predecessor binary search.
    pub fn row_at_offset(&self, y: u32) -> (row: usize)
        requires
            self.wf(),
            self.heights().len() > 0,
            y < cum_height(self.heights(), self.heights().len() as int),
        ensures
            is_row_at(self.heights(), y, row as int),
    {
        let total = self.prefix.len() - 1;
        let mut lo: usize = 0;
        let mut hi: usize = total;
        while hi - lo > 1
            invariant
                self.wf(),
                total == self.heights().len(),
                lo < hi <= total,
                self.entries()[lo as int] <= y,
                y < self.entries()[hi as int],
            decreases hi - lo,
        {
            let mid = lo + (hi - lo) / 2;
            if self.prefix[mid] <= y {
                lo = mid;
            } else {
                hi = mid;
            }
        }
        lo
    }

    /// The smallest row index whose cumulative height reaches `target`,
    /// clamped to the row count. Binary search over the monotonic entries.
    pub fn first_row_with_cumulative_ge(&self, target: u32) -> (row: usize)
        requires
            self.wf(),
        ensures
            is_first_at_or_after(self.heights(), target, row as int),
    {
        let total = self.prefix.len() - 1;
        let mut lo: usize = 0;
        let mut hi: usize = total;
        while lo < hi
            invariant
                self.wf(),
                total == self.heights().len(),
                lo <= hi <= total,
                forall|j: int| 0 <= j < lo ==> cum_height(self.heights(), j) < target,
                hi < total ==> cum_height(self.heights(), hi as int) >= target,
            decreases hi - lo,
        {
            let mid = lo + (hi - lo) / 2;
            if self.prefix[mid] < target {
                proof {
                    assert forall|j: int| 0 <= j <= mid implies cum_height(self.heights(), j)
                        < target by {
                        lemma_cum_monotonic(self.heights(), j, mid as int);
                    }
                }
                lo = mid + 1;
            } else {
                hi = mid;
            }
        }
        lo
    }
}

} // verus!
