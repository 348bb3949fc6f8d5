//! Core of a dynamic-height list virtualizer.
//!
//! A very large list is rendered a slice at a time: only the rows that fall
//! inside the viewport (plus a pixel buffer on each side) are materialized,
//! while two invisible spacers stand in for everything above and below, so the
//! scrollable region keeps its full height.
//!
//! The pieces, leaves first:
//! - [`height_store`]: last-measured pixel height of every row, default-filled
//!   with an estimate until a row has actually been measured.
//! - [`prefix_index`]: cumulative heights derived from the store; answers
//!   "height up to row i" and the reverse lookup "row at offset y".
//! - [`resolver`]: turns a scroll offset, a viewport height and a buffer into
//!   the contiguous row range to render and the two spacer sizes.
//! - [`engine`]: owns the state, feeds measured heights back into the store,
//!   and rebuilds the index lazily, only when a height actually changed.

pub mod engine;
pub mod height_store;
pub mod prefix_index;
pub mod px;
pub mod resolver;
