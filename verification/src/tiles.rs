//! The tile model: one grid cell's terrain plus optional player occupation.

use vstd::prelude::*;

use crate::player::Player;

verus! {

/// Role of an occupied cell.
#[derive(Copy, Clone, PartialEq, Eq, Structural, Debug, Hash)]
pub enum PlayerTile {
    /// Low-value economy cell; captured by any hit regardless of hp.
    Farm,
    /// Ordinary territory cell; the only role that can be upgraded or selected.
    Tile,
    /// Immovable per-player anchor that connectivity traces back to.
    Base,
}

/// Terrain of a cell; preserved across every occupation change.
#[derive(Copy, Clone, PartialEq, Eq, Structural, Debug, Hash)]
pub enum Terrain {
    /// Featureless ground.
    Plain,
    Water,
    Mountain,
}

impl Terrain {
    /// Hit points a cell freshly captured on this terrain starts with.
    pub fn get_health(&self) -> (r: usize)
        ensures
            r == self.spec_health(),
    {
        match self {
            Terrain::Water => 0,
            Terrain::Plain => 1,
            Terrain::Mountain => 2,
        }
    }

    /// Spec view of `get_health`: water 0, plain 1, mountain 2.
    pub open spec fn spec_health(self) -> usize {
        match self {
            Terrain::Water => 0usize,
            Terrain::Plain => 1usize,
            Terrain::Mountain => 2usize,
        }
    }
}

impl Default for Terrain {
    fn default() -> (r: Terrain)
        ensures
            r == Terrain::Plain,
    {
        Terrain::Plain
    }
}

/// One grid cell: empty with some terrain, or occupied by a player.
#[derive(Copy, Clone, PartialEq, Eq, Structural, Debug, Hash)]
pub enum TileType {
    Empty(Terrain),
    Occupied {
        player_tile: PlayerTile,
        terrain: Terrain,
        owner: Player,
        level: usize,
        hp: usize,
    },
}

impl Default for TileType {
    fn default() -> (r: TileType)
        ensures
            r == TileType::Empty(Terrain::Plain),
    {
        TileType::Empty(Terrain::Plain)
    }
}

impl TileType {
    /// Whether this cell is an occupied Farm.
    pub fn is_farm(&self) -> (r: bool)
        ensures
            r == self.spec_is_farm(),
    {
        matches!(self, TileType::Occupied { player_tile: PlayerTile::Farm, .. })
    }

    pub open spec fn spec_is_farm(self) -> bool {
        matches!(self, TileType::Occupied { player_tile: PlayerTile::Farm, .. })
    }

    /// Whether this cell is an occupied ordinary Tile.
    pub fn is_tile(&self) -> (r: bool)
        ensures
            r == self.spec_is_tile(),
    {
        matches!(self, TileType::Occupied { player_tile: PlayerTile::Tile, .. })
    }

    pub open spec fn spec_is_tile(self) -> bool {
        matches!(self, TileType::Occupied { player_tile: PlayerTile::Tile, .. })
    }

    /// Whether this cell is empty with no terrain feature.
    pub fn is_empty(&self) -> (r: bool)
        ensures
            r == (self == TileType::Empty(Terrain::Plain)),
    {
        matches!(self, TileType::Empty(Terrain::Plain))
    }

    /// The cell's terrain, occupied or not.
    pub fn terrain(&self) -> (r: Terrain)
        ensures
            r == self.spec_terrain(),
    {
        match self {
            TileType::Empty(terrain) => *terrain,
            TileType::Occupied { terrain, .. } => *terrain,
        }
    }

    pub open spec fn spec_terrain(self) -> Terrain {
        match self {
            TileType::Empty(terrain) => terrain,
            TileType::Occupied { terrain, .. } => terrain,
        }
    }

    /// The role of the occupant, if any.
    pub fn player_tile(&self) -> (r: Option<PlayerTile>)
        ensures
            r == self.spec_player_tile(),
    {
        match self {
            TileType::Occupied { player_tile, .. } => Some(*player_tile),
            _ => None,
        }
    }

    pub open spec fn spec_player_tile(self) -> Option<PlayerTile> {
        match self {
            TileType::Occupied { player_tile, .. } => Some(player_tile),
            _ => None,
        }
    }

    /// The owner of the cell, if occupied.
    pub fn owner(&self) -> (r: Option<Player>)
        ensures
            r == self.spec_owner(),
    {
        match self {
            TileType::Occupied { owner, .. } => Some(*owner),
            _ => None,
        }
    }

    pub open spec fn spec_owner(self) -> Option<Player> {
        match self {
            TileType::Occupied { owner, .. } => Some(owner),
            _ => None,
        }
    }

    /// The level of the cell, if occupied.
    pub fn level(&self) -> (r: Option<usize>)
        ensures
            r == self.spec_level(),
    {
        match self {
            TileType::Occupied { level, .. } => Some(*level),
            _ => None,
        }
    }

    pub open spec fn spec_level(self) -> Option<usize> {
        match self {
            TileType::Occupied { level, .. } => Some(level),
            _ => None,
        }
    }

    /// Whether this cell is a Base owned by `player`.
    pub fn is_base(&self, player: Player) -> (r: bool)
        ensures
            r == self.spec_is_base(player),
    {
        matches!(self, TileType::Occupied { player_tile: PlayerTile::Base, owner, .. } if *owner == player)
    }

    /// Whether this cell holds a Base, whoever owns it.
    pub open spec fn spec_is_base_role(self) -> bool {
        matches!(self, TileType::Occupied { player_tile: PlayerTile::Base, .. })
    }

    pub open spec fn spec_is_base(self, player: Player) -> bool {
        match self {
            TileType::Occupied { player_tile: PlayerTile::Base, owner, .. } => owner == player,
            _ => false,
        }
    }

    /// The same terrain occupied with the given role, owner, level and hp.
    pub fn with_owner(&self, player_tile: PlayerTile, player: Player, level: usize, hp: usize) -> (r:
        TileType)
        ensures
            r == (TileType::Occupied {
                player_tile,
                terrain: self.spec_terrain(),
                owner: player,
                level,
                hp,
            }),
    {
        match self {
            TileType::Empty(terrain) => TileType::Occupied {
                player_tile,
                terrain: *terrain,
                owner: player,
                level,
                hp,
            },
            TileType::Occupied { terrain, .. } => TileType::Occupied {
                player_tile,
                terrain: *terrain,
                owner: player,
                level,
                hp,
            },
        }
    }

    /// Clear the occupant; the terrain is preserved.
    pub fn empty(&mut self)
        ensures
            *final(self) == TileType::Empty(old(self).spec_terrain()),
    {
        match *self {
            TileType::Occupied { terrain, .. } => {
                *self = TileType::Empty(terrain);
            },
            TileType::Empty(_) => {},
        }
    }

    /// Subtract `damage` hit points, saturating at zero, and return the
    /// remaining hp.  Empty cells take no damage and report zero.
    pub fn damage(&mut self, damage: usize) -> (r: usize)
        ensures
            *final(self) == old(self).spec_damaged(damage),
            r == final(self).spec_hp(),
    {
        match *self {
            TileType::Occupied { player_tile, terrain, owner, level, hp } => {
                let new_hp = if hp >= damage {
                    hp - damage
                } else {
                    0
                };
                *self = TileType::Occupied { player_tile, terrain, owner, level, hp: new_hp };
                new_hp
            },
            TileType::Empty(_) => 0,
        }
    }

    /// Remaining hit points; zero for an empty cell.
    pub open spec fn spec_hp(self) -> usize {
        match self {
            TileType::Occupied { hp, .. } => hp,
            _ => 0usize,
        }
    }

    /// Spec view of `damage`: hp shrinks by `damage`, never below zero.
    pub open spec fn spec_damaged(self, damage: usize) -> TileType {
        match self {
            TileType::Occupied { player_tile, terrain, owner, level, hp } => TileType::Occupied {
                player_tile,
                terrain,
                owner,
                level,
                hp: if hp >= damage {
                    (hp - damage) as usize
                } else {
                    0usize
                },
            },
            TileType::Empty(t) => TileType::Empty(t),
        }
    }

    /// Raise level and hp by exactly one; a no-op on empty cells.
    pub fn upgrade(&mut self)
        requires
            old(self).spec_level() is Some ==> old(self).spec_level()->Some_0 < usize::MAX,
            old(self).spec_level() is Some ==> old(self).spec_hp() < usize::MAX,
        ensures
            *final(self) == old(self).spec_upgraded(),
    {
        match *self {
            TileType::Occupied { player_tile, terrain, owner, level, hp } => {
                *self = TileType::Occupied {
                    player_tile,
                    terrain,
                    owner,
                    level: level + 1,
                    hp: hp + 1,
                };
            },
            TileType::Empty(_) => {},
        }
    }

    /// Spec view of `upgrade`: level and hp each grow by exactly one.
    pub open spec fn spec_upgraded(self) -> TileType
        recommends
            self.spec_level() is Some ==> self.spec_level()->Some_0 < usize::MAX,
    {
        match self {
            TileType::Occupied { player_tile, terrain, owner, level, hp } => TileType::Occupied {
                player_tile,
                terrain,
                owner,
                level: (level + 1) as usize,
                hp: (hp + 1) as usize,
            },
            TileType::Empty(t) => TileType::Empty(t),
        }
    }
}

} // verus!
