//! Saturating pixel arithmetic.
//!
//! Cumulative heights over many rows can exceed `u32`, so every sum the
//! virtualizer forms saturates at `u32::MAX` instead of overflowing: an
//! extreme list under-counts its total height rather than crashing.

use vstd::prelude::*;

verus! {

/// The smaller of two pixel values.
pub open spec fn min_u32(a: u32, b: u32) -> u32 {
    if a < b {
        a
    } else {
        b
    }
}

/// The larger of two pixel values.
pub open spec fn max_u32(a: u32, b: u32) -> u32 {
    if a < b {
        b
    } else {
        a
    }
}

/// Every row counts as at least one pixel, so cumulative heights grow by at
/// least one per row (until saturation) and stay invertible.
pub open spec fn clamp_min1(h: u32) -> u32 {
    if h == 0 {
        1u32
    } else {
        h
    }
}

/// `u32` product that tops out at `u32::MAX` instead of overflowing.
pub open spec fn sat_mul(a: u32, b: u32) -> u32 {
    if a * b > u32::MAX {
        u32::MAX
    } else {
        (a * b) as u32
    }
}

pub fn min_px(a: u32, b: u32) -> (r: u32)
    ensures
        r == min_u32(a, b),
{
    if a < b {
        a
    } else {
        b
    }
}

pub fn max_px(a: u32, b: u32) -> (r: u32)
    ensures
        r == max_u32(a, b),
{
    if a < b {
        b
    } else {
        a
    }
}

pub fn clamp_to_min1(h: u32) -> (r: u32)
    ensures
        r == clamp_min1(h),
{
    if h == 0 {
        1
    } else {
        h
    }
}

pub fn saturating_mul_u32(a: u32, b: u32) -> (r: u32)
    ensures
        r == sat_mul(a, b),
{
    match a.checked_mul(b) {
        Some(p) => p,
        None => u32::MAX,
    }
}

/// A row count (or a buffer expressed in rows) capped to the pixel range.
pub open spec fn usize_as_u32_sat(x: usize) -> u32 {
    if x > u32::MAX {
        u32::MAX
    } else {
        x as u32
    }
}

pub fn usize_to_u32_saturating(x: usize) -> (r: u32)
    ensures
        r == usize_as_u32_sat(x),
{
    if x > u32::MAX as usize {
        u32::MAX
    } else {
        x as u32
    }
}

} // verus!
