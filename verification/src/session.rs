//! Helpers for the peer-to-peer build of the game, which keeps per-cell
//! state in entity components and mirrors ownership in a light grid.

pub mod farms;
pub mod grid;
pub mod input;
pub mod tile_event;
pub mod tiles;
pub mod turn;
pub mod utils;
