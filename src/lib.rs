//! A spreadsheet-like grid of columns and cells that strokes each cell's
//! border on a drawing surface as it is built, and names its columns
//! A, B, ..., Z, AA, AB, and so on.
use vstd::prelude::*;

pub mod canvas;
pub mod cell;
pub mod column;
pub mod grid;
pub mod naming;

verus! {

/// The sum of two unsigned 32-bit integers.
pub fn add(a: u32, b: u32) -> (r: u32)
    requires
        a + b <= u32::MAX,
    ensures
        r == a + b,
{
    a + b
}

} // verus!
