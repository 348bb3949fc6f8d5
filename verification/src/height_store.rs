//! Per-row measured heights.
//!
//! One entry per row, holding the last measured pixel height, or the caller's
//! estimate while a row has never been measured. Writes that would change
//! nothing are no-ops, so downstream consumers can rebuild derived state only
//! when a height really changed.

use vstd::prelude::*;

verus! {

/// Mapping from row index to its last-measured pixel height.
pub struct HeightStore {
    entries: Vec<u32>,
}

impl View for HeightStore {
    type V = Seq<u32>;

    closed spec fn view(&self) -> Seq<u32> {
        self.entries@
    }
}

impl HeightStore {
    /// A store of `total` rows, every one at the estimated default height.
    pub fn new(total: usize, default_height: u32) -> (store: Self)
        ensures
            store@.len() == total,
            forall|i: int| 0 <= i < total ==> store@[i] == default_height,
    {
        let mut entries: Vec<u32> = Vec::new();
        let mut k: usize = 0;
        while k < total
            invariant
                k <= total,
                entries@.len() == k,
                forall|i: int| 0 <= i < k ==> entries@[i] == default_height,
            decreases total - k,
        {
            entries.push(default_height);
            k = k + 1;
        }
        HeightStore { entries }
    }

    pub fn len(&self) -> (n: usize)
        ensures
            n == self@.len(),
    {
        self.entries.len()
    }

    /// The height stored for one row.
    pub fn get(&self, row: usize) -> (h: u32)
        requires
            row < self@.len(),
        ensures
            h == self@[row as int],
    {
        self.entries[row]
    }

    /// The whole store, in row order, for index construction.
    pub fn get_all(&self) -> (entries: &Vec<u32>)
        ensures
            entries@ == self@,
    {
        &self.entries
    }

    /// Grows or shrinks the store to `new_total` rows. Entries that survive
    /// keep their measured height; rows that appear take `default_height`.
    pub fn resize(&mut self, new_total: usize, default_height: u32)
        ensures
            final(self)@.len() == new_total,
            forall|i: int|
                0 <= i < new_total && i < old(self)@.len() ==> final(self)@[i] == old(self)@[i],
            forall|i: int|
                old(self)@.len() <= i < new_total ==> final(self)@[i] == default_height,
    {
        if new_total <= self.entries.len() {
            self.entries.truncate(new_total);
        } else {
            while self.entries.len() < new_total
                invariant
                    old(self)@.len() <= self.entries@.len() <= new_total,
                    forall|i: int|
                        0 <= i < old(self)@.len() ==> self.entries@[i] == old(self)@[i],
                    forall|i: int|
                        old(self)@.len() <= i < self.entries@.len() ==> self.entries@[i]
                            == default_height,
                decreases new_total - self.entries@.len(),
            {
                self.entries.push(default_height);
            }
        }
    }

    /// Records a measured height. Out-of-range rows are ignored, and writing
    /// the value already stored is a no-op, so a repeated measurement never
    /// triggers spurious downstream recomputation.
    pub fn set(&mut self, row: usize, height: u32) -> (changed: bool)
        ensures
            changed == (row < old(self)@.len() && old(self)@[row as int] != height),
            !changed ==> *final(self) == *old(self),
            changed ==> final(self)@ == old(self)@.update(row as int, height),
    {
        if row < self.entries.len() {
            if self.entries[row] != height {
                self.entries.set(row, height);
                return true;
            }
        }
        false
    }
}

} // verus!
