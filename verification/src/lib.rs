//! Authoritative core of a two-player turn-based territory-capture game.
//!
//! The library is split along the original architecture: the authoritative
//! store (tile model, grid, connectivity, counters, action resolver) and the
//! lighter per-session helpers used by a peer-to-peer build of the same game.

pub mod consts;
pub mod player;
pub mod tiles;
pub mod grid;
pub mod reach;
pub mod input;
pub mod events;
pub mod farms;
pub mod terrain;
pub mod state;
pub mod session;
pub mod client;
