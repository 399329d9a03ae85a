//! Board dimensions and placement caps.
//!
//! The board spans grid coordinates `-MAP_WIDTH <= x < MAP_WIDTH` and
//! `-MAP_HEIGHT <= y < MAP_HEIGHT`.  The backing array holds one cell per
//! in-bounds coordinate plus a reserved sentinel slot at the last index that
//! every out-of-bounds coordinate maps to.

use vstd::prelude::*;

verus! {

/// Half the board width, in cells: valid x coordinates are `-8..8`.
pub const MAP_WIDTH: i32 = 8;

/// Half the board height, in cells: valid y coordinates are `-4..4`.
pub const MAP_HEIGHT: i32 = 4;

/// Side length of one rendered tile in pixels; clients align the mouse to it.
pub const TILE_SIZE: i32 = 50;

/// Cells in the backing array: `2 * MAP_WIDTH * 2 * MAP_HEIGHT` real cells
/// plus the sentinel slot.
pub const GRID_SIZE: usize = 129;

/// Index of the reserved sentinel slot; reads of it yield a default empty
/// cell and writes to it are no-ops.
pub const SENTINEL_INDEX: usize = 128;

/// Mountains each player may place during terrain placement.
pub const MAX_MOUNTAIN_COUNT: usize = 5;

/// Water cells each player may place during terrain placement.
pub const MAX_WATER_COUNT: usize = 4;

} // verus!
