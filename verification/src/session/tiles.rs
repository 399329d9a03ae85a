//! Per-cell components of the peer-to-peer build: the cell's kind, its
//! level, its health and its owner each live in a component of their own.

use vstd::prelude::*;

use crate::player::Player;
use crate::tiles::{PlayerTile, Terrain};

verus! {

/// A cell's kind as the component world sees it: empty terrain or a role
/// on some terrain.  Levels, health and ownership live in the sibling
/// components.
#[derive(Copy, Clone, PartialEq, Eq, Structural, Debug, Hash)]
pub enum TileType {
    Empty(Terrain),
    Occupied(PlayerTile, Terrain),
}

impl Default for TileType {
    fn default() -> (r: TileType)
        ensures
            r == TileType::Empty(Terrain::Plain),
    {
        TileType::Empty(Terrain::Plain)
    }
}

impl TileType {
    pub fn is_farm(&self) -> (r: bool)
        ensures
            r == (self matches TileType::Occupied(PlayerTile::Farm, _)),
    {
        matches!(self, TileType::Occupied(PlayerTile::Farm, _))
    }

    pub fn is_base(&self) -> (r: bool)
        ensures
            r == (self matches TileType::Occupied(PlayerTile::Base, _)),
    {
        matches!(self, TileType::Occupied(PlayerTile::Base, _))
    }

    pub fn is_tile(&self) -> (r: bool)
        ensures
            r == (self matches TileType::Occupied(PlayerTile::Tile, _)),
    {
        matches!(self, TileType::Occupied(PlayerTile::Tile, _))
    }

    pub fn is_empty(&self) -> (r: bool)
        ensures
            r == (self == TileType::Empty(Terrain::Plain)),
    {
        matches!(self, TileType::Empty(Terrain::Plain))
    }

    /// The cell's terrain, occupied or not.
    pub fn terrain(&self) -> (r: Terrain)
        ensures
            r == self.spec_terrain(),
    {
        match self {
            TileType::Empty(terrain) => *terrain,
            TileType::Occupied(_, terrain) => *terrain,
        }
    }

    pub open spec fn spec_terrain(self) -> Terrain {
        match self {
            TileType::Empty(terrain) => terrain,
            TileType::Occupied(_, terrain) => terrain,
        }
    }

    /// The role of the occupant, if any.
    pub fn player_tile(&self) -> (r: Option<PlayerTile>)
        ensures
            r == (match *self {
                TileType::Occupied(player_tile, _) => Some(player_tile),
                _ => None::<PlayerTile>,
            }),
    {
        match self {
            TileType::Occupied(player_tile, _) => Some(*player_tile),
            _ => None,
        }
    }

    /// Occupy the cell with `player_tile`; the terrain is preserved.
    pub fn set_player_tile(&mut self, player_tile: PlayerTile)
        ensures
            *final(self) == TileType::Occupied(player_tile, old(self).spec_terrain()),
    {
        match *self {
            TileType::Empty(terrain) => {
                *self = TileType::Occupied(player_tile, terrain);
            },
            TileType::Occupied(_, terrain) => {
                *self = TileType::Occupied(player_tile, terrain);
            },
        }
    }

    /// Clear the occupant; the terrain is preserved.
    pub fn empty(&mut self)
        ensures
            *final(self) == TileType::Empty(old(self).spec_terrain()),
    {
        match *self {
            TileType::Occupied(_, terrain) => {
                *self = TileType::Empty(terrain);
            },
            TileType::Empty(_) => {},
        }
    }
}

/// The kind component of one cell entity.
#[derive(Copy, Clone, PartialEq, Eq, Structural, Debug)]
pub struct Tile(pub TileType);

/// The upgrade tier of one cell entity.
#[derive(Copy, Clone, PartialEq, Eq, Structural, Debug)]
pub struct Level(pub usize);

impl Level {
    /// Raise the tier by exactly one.
    pub fn up(&mut self)
        requires
            old(self).0 < usize::MAX,
        ensures
            final(self).0 == old(self).0 + 1,
    {
        self.0 = self.0 + 1;
    }
}

impl Default for Level {
    fn default() -> (r: Level)
        ensures
            r.0 == 0,
    {
        Level(0)
    }
}

/// The remaining hit points of one cell entity.
#[derive(Copy, Clone, PartialEq, Eq, Structural, Debug)]
pub struct Health(pub usize);

impl Health {
    /// Take one hit: health falls by one but never below zero, and the
    /// remaining value is returned.
    pub fn damage(&mut self) -> (r: usize)
        ensures
            final(self).0 == if old(self).0 > 0 {
                (old(self).0 - 1) as usize
            } else {
                0usize
            },
            r == final(self).0,
    {
        if self.0 > 0 {
            self.0 = self.0 - 1;
        }
        self.0
    }
}

impl Default for Health {
    fn default() -> (r: Health)
        ensures
            r.0 == 0,
    {
        Health(0)
    }
}

/// The owner component of one cell entity; unowned cells hold nothing.
#[derive(Copy, Clone, PartialEq, Eq, Structural, Debug)]
pub struct Owned(pub Option<Player>);

impl Default for Owned {
    fn default() -> (r: Owned)
        ensures
            r.0 is None,
    {
        Owned(None)
    }
}

/// The ore kinds the session build knows of; a planned resource layer that
/// play does not yet read.
#[derive(Copy, Clone, PartialEq, Eq, Structural, Debug, Hash)]
pub enum OreType {
    Iron,
    Copper,
    Gold,
    Diamond,
}

} // verus!
