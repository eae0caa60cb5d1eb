//! The city grid: a square of blocks separated by roads.
//!
//! Layout (world units = pixels):
//!   [road][block][road][block] ... [road]
//! Roads run along both axes at multiples of `CELL`, each `ROAD` wide.
//! Blocks contain a 2x2 grid of building lots (with a walkable sidewalk
//! band around them) or, occasionally, a park.

use vstd::prelude::*;

verus! {

/// Block + road.
pub const CELL: u32 = 280;

pub const BLOCK: u32 = 200;

pub const ROAD: u32 = 80;

/// Blocks per axis.
pub const N: usize = 9;

pub const SIDEWALK: u32 = 22;

/// Total city size: one road plus `N` cells.
pub const SIZE: u32 = 2600;

/// Road centers (intersection coordinates) along one axis: 0..=N.
pub const LANES: usize = 10;

/// Building lots per block (a 2x2 grid).
pub const LOTS: usize = 4;

/// What a block holds.
#[derive(Clone, Copy, Debug, PartialEq, Eq, Structural)]
pub enum BlockKind {
    Buildings,
    Park,
}

/// The grid is consistent: a cell is a block and a road, the city is one
/// road plus `N` cells, there is a road on each side of every block, and
/// the 2x2 lots with their sidewalk band fill a block.
pub proof fn lemma_grid_consistent()
    ensures
        CELL == BLOCK + ROAD,
        SIZE == ROAD + N * CELL,
        LANES == N + 1,
        SIZE > 0,
        BLOCK > 2 * SIDEWALK,
        (BLOCK - 2 * SIDEWALK) % 2 == 0,
{
}

/// The index of block `(i, j)` in the row-major block list (`j * N + i`).
pub open spec fn block_index(i: int, j: int) -> int {
    j * N + i
}

} // verus!
