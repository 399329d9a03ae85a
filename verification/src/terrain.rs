//! Terrain-placement bookkeeping for the setup phase: per-player counts of
//! placed mountains and water, a current placement mode, and the caps the
//! mode enforces.

use vstd::prelude::*;

use crate::consts::{MAX_MOUNTAIN_COUNT, MAX_WATER_COUNT};
use crate::player::Player;
use crate::tiles::Terrain;

verus! {

/// Placement state during terrain setup.  Counts are per player, Red in
/// slot 0 and Blue in slot 1.
#[derive(Clone, Copy, Debug, PartialEq, Eq)]
pub struct TerrainCounter {
    pub placement_mode: Terrain,
    /// The type most recently placed; plain while nothing has been.  An
    /// erase undoes one placement of this type.
    pub last_placed: Terrain,
    pub mountain_count: [usize; 2],
    pub water_count: [usize; 2],
}

impl Default for TerrainCounter {
    /// Placement starts in mountain mode with nothing placed.
    fn default() -> (r: TerrainCounter)
        ensures
            r.placement_mode == Terrain::Mountain,
            r.last_placed == Terrain::Plain,
            r.mountain_count[0] == 0 && r.mountain_count[1] == 0,
            r.water_count[0] == 0 && r.water_count[1] == 0,
    {
        TerrainCounter {
            placement_mode: Terrain::Mountain,
            last_placed: Terrain::Plain,
            mountain_count: [0, 0],
            water_count: [0, 0],
        }
    }
}

impl TerrainCounter {
    /// Whether `player` may place another cell of the current mode: true
    /// exactly when the mode's count is below its cap (always, in erase
    /// mode).
    pub fn can_add(&self, player: Player) -> (r: bool)
        ensures
            r == self.spec_can_add(player),
    {
        match self.placement_mode {
            Terrain::Mountain => self.mountain_count[player.index()] < MAX_MOUNTAIN_COUNT,
            Terrain::Water => self.water_count[player.index()] < MAX_WATER_COUNT,
            _ => true,
        }
    }

    /// Spec view of `can_add`.
    pub open spec fn spec_can_add(self, player: Player) -> bool {
        match self.placement_mode {
            Terrain::Mountain => self.mountain_count[player.spec_index()] < MAX_MOUNTAIN_COUNT,
            Terrain::Water => self.water_count[player.spec_index()] < MAX_WATER_COUNT,
            Terrain::Plain => true,
        }
    }

    /// Record a placement by `player`: placing mountain or water raises
    /// that count and becomes the last-placed type; erasing (plain) undoes
    /// one placement, lowering the last-placed type's count by one, never
    /// below zero.
    pub fn set(&mut self, tile_type: Terrain, player: Player)
        requires
            tile_type == Terrain::Mountain ==> old(self).mountain_count[player.spec_index()]
                < usize::MAX,
            tile_type == Terrain::Water ==> old(self).water_count[player.spec_index()]
                < usize::MAX,
        ensures
            *final(self) == old(self).spec_set(tile_type, player),
    {
        let slot = player.index();
        match tile_type {
            Terrain::Mountain => {
                self.mountain_count[slot] = self.mountain_count[slot] + 1;
                self.last_placed = Terrain::Mountain;
                proof {
                    assert(self.mountain_count =~= spec_bump(
                        old(self).mountain_count,
                        slot as int,
                        1,
                    ));
                }
            },
            Terrain::Water => {
                self.water_count[slot] = self.water_count[slot] + 1;
                self.last_placed = Terrain::Water;
                proof {
                    assert(self.water_count =~= spec_bump(old(self).water_count, slot as int, 1));
                }
            },
            Terrain::Plain => {
                match self.last_placed {
                    Terrain::Mountain => {
                        if self.mountain_count[slot] > 0 {
                            self.mountain_count[slot] = self.mountain_count[slot] - 1;
                        }
                        proof {
                            assert(self.mountain_count =~= spec_bump(
                                old(self).mountain_count,
                                slot as int,
                                -1,
                            ));
                        }
                    },
                    Terrain::Water => {
                        if self.water_count[slot] > 0 {
                            self.water_count[slot] = self.water_count[slot] - 1;
                        }
                        proof {
                            assert(self.water_count =~= spec_bump(
                                old(self).water_count,
                                slot as int,
                                -1,
                            ));
                        }
                    },
                    Terrain::Plain => {},
                }
            },
        }
    }

    /// Spec view of `set`.
    pub open spec fn spec_set(self, tile_type: Terrain, player: Player) -> TerrainCounter {
        let slot = player.spec_index();
        match tile_type {
            Terrain::Mountain => TerrainCounter {
                mountain_count: spec_bump(self.mountain_count, slot, 1),
                last_placed: Terrain::Mountain,
                ..self
            },
            Terrain::Water => TerrainCounter {
                water_count: spec_bump(self.water_count, slot, 1),
                last_placed: Terrain::Water,
                ..self
            },
            Terrain::Plain => match self.last_placed {
                Terrain::Mountain => TerrainCounter {
                    mountain_count: spec_bump(self.mountain_count, slot, -1),
                    ..self
                },
                Terrain::Water => TerrainCounter {
                    water_count: spec_bump(self.water_count, slot, -1),
                    ..self
                },
                Terrain::Plain => self,
            },
        }
    }
}

/// The pair `a` with slot `slot` moved by `delta`, floored at zero.
pub open spec fn spec_bump(a: [usize; 2], slot: int, delta: int) -> [usize; 2] {
    let v = if a[slot] + delta >= 0 {
        (a[slot] + delta) as usize
    } else {
        0usize
    };
    if slot == 0 {
        [v, a[1]]
    } else {
        [a[0], v]
    }
}

} // verus!
