//! Core of a boundary adapter: wrapping 64-bit addition, a fixed greeting,
//! and zero-terminated boundary strings with a verified no-embedded-zero
//! construction check. The raw-pointer handoff across the C boundary lives
//! outside this library; everything here works on plain owned values.

use vstd::prelude::*;

pub mod adapter;
pub mod boundary;

pub use adapter::{greeting, hello_world};
pub use boundary::{BoundaryError, BoundaryString};

verus! {

/// Sum of two unsigned 64-bit values with wraparound on overflow:
/// the result is exactly `(left + right) mod 2^64`.
pub fn add(left: u64, right: u64) -> (r: u64)
    ensures
        r == (left + right) % 0x1_0000_0000_0000_0000,
{
    left.wrapping_add(right)
}

} // verus!
