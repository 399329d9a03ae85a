//! Client-side bookkeeping: the win tally across matches, the mouse
//! position snapped to the tile raster, and the cell context menu's
//! entries.

use vstd::prelude::*;

use crate::consts::TILE_SIZE;
use crate::grid::GridVec;
use crate::player::Player;

verus! {

/// Matches won, per player: Red in slot 0, Blue in slot 1.
#[derive(Copy, Clone, PartialEq, Eq, Debug)]
pub struct WinCounter {
    wins: [usize; 2],
}

impl Default for WinCounter {
    fn default() -> (r: WinCounter)
        ensures
            r.spec_wins(Player::Red) == 0,
            r.spec_wins(Player::Blue) == 0,
    {
        WinCounter { wins: [0, 0] }
    }
}

impl WinCounter {
    /// Spec view of a player's tally.
    pub closed spec fn spec_wins(self, player: Player) -> usize {
        self.wins[player.spec_index()]
    }

    /// `player`'s tally.
    pub fn get(&self, player: Player) -> (r: usize)
        ensures
            r == self.spec_wins(player),
    {
        self.wins[player.index()]
    }

    /// Add `points` to `player`'s tally.
    pub fn increment(&mut self, player: Player, points: usize)
        requires
            old(self).spec_wins(player) + points <= usize::MAX,
        ensures
            final(self).spec_wins(player) == old(self).spec_wins(player) + points,
            final(self).spec_wins(player.spec_other()) == old(self).spec_wins(
                player.spec_other(),
            ),
    {
        let slot = player.index();
        self.wins[slot] = self.wins[slot] + points;
    }
}

/// The mouse position, snapped by the camera layer to the pixel corner of
/// the tile under it.
#[derive(Copy, Clone, PartialEq, Eq, Structural, Debug)]
pub struct GridMouse {
    position: GridVec,
}

impl Default for GridMouse {
    fn default() -> (r: GridMouse)
        ensures
            r.spec_position() == (GridVec { x: 0, y: 0 }),
            r.wf(),
    {
        GridMouse { position: GridVec { x: 0, y: 0 } }
    }
}

impl GridMouse {
    /// The snapped position is a whole number of tiles from the origin.
    pub closed spec fn wf(self) -> bool {
        &&& self.position.x as int % (TILE_SIZE as int) == 0
        &&& self.position.y as int % (TILE_SIZE as int) == 0
    }

    /// Spec view of the raw pixel position.
    pub closed spec fn spec_position(self) -> GridVec {
        self.position
    }

    /// Record a snapped pixel position.
    pub fn set_position(&mut self, position: GridVec)
        requires
            position.x as int % (TILE_SIZE as int) == 0,
            position.y as int % (TILE_SIZE as int) == 0,
        ensures
            final(self).spec_position() == position,
            final(self).wf(),
    {
        self.position = position;
    }

    /// The position of the mouse as a grid index: the snapped pixel
    /// position divided by the tile size.
    pub fn grid_position(&self) -> (r: GridVec)
        requires
            self.wf(),
        ensures
            r.x as int * (TILE_SIZE as int) == self.spec_position().x as int,
            r.y as int * (TILE_SIZE as int) == self.spec_position().y as int,
    {
        GridVec { x: self.position.x / TILE_SIZE, y: self.position.y / TILE_SIZE }
    }
}

/// The entries of the cell context menu.
#[derive(Copy, Clone, PartialEq, Eq, Structural, Debug, Hash)]
pub enum MenuOption {
    Upgrade,
    ConvertFarm,
    Attack,
}

} // verus!
