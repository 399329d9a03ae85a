//! The cell-level events a peer-to-peer session passes between its input
//! and resolution steps.

use vstd::prelude::*;

use crate::grid::GridVec;
use crate::tiles::PlayerTile;

verus! {

/// One resolved intent of the session build.  A farm conversion travels as
/// an attack that plants the Farm role.
#[derive(Clone, PartialEq, Eq, Debug)]
pub enum TileEvent {
    Upgrade { target: GridVec, hp: usize },
    Attack { targets: Vec<GridVec>, player_tile: PlayerTile },
    Select(GridVec),
    Deselect,
}

impl TileEvent {
    /// The attack payload, if this is an attack.
    pub fn unwrap_attack(&self) -> (r: Option<(&Vec<GridVec>, PlayerTile)>)
        ensures
            match *self {
                TileEvent::Attack { targets, player_tile } => r matches Some(p) && p.0@
                    == targets@ && p.1 == player_tile,
                _ => r is None,
            },
    {
        match self {
            TileEvent::Attack { targets, player_tile } => Some((targets, *player_tile)),
            _ => None,
        }
    }

    /// The upgrade payload, if this is an upgrade.
    pub fn unwrap_upgrade(&self) -> (r: Option<(&GridVec, usize)>)
        ensures
            match *self {
                TileEvent::Upgrade { target, hp } => r matches Some(p) && *p.0 == target && p.1
                    == hp,
                _ => r is None,
            },
    {
        match self {
            TileEvent::Upgrade { target, hp } => Some((target, *hp)),
            _ => None,
        }
    }
}

} // verus!
