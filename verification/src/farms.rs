//! Per-player economy, derived by full rescan: one point for the base plus
//! the levels of every owned Farm and ordinary Tile.

use vstd::prelude::*;

use crate::consts::{GRID_SIZE, SENTINEL_INDEX};
use crate::grid::{spec_sweep, TileGrid};
use crate::player::Player;
use crate::tiles::{PlayerTile, TileType};

verus! {

/// What one cell adds to `player`'s committed level sum.
pub open spec fn spec_contrib(tile: TileType, player: Player) -> int {
    match tile {
        TileType::Occupied { player_tile, owner, level, .. } => if (player_tile
            == PlayerTile::Farm || player_tile == PlayerTile::Tile) && owner == player {
            level as int
        } else {
            0
        },
        _ => 0,
    }
}

/// `player`'s committed level sum over the first `i` slots, plus the one
/// base point.
pub open spec fn spec_score_upto(g: Seq<TileType>, player: Player, i: int) -> int
    decreases i,
{
    if i <= 0 {
        1
    } else {
        spec_score_upto(g, player, i - 1) + spec_contrib(g[i - 1], player)
    }
}

/// `player`'s committed level sum: one base point plus the levels of every
/// owned Farm and ordinary Tile.
pub open spec fn spec_score(g: Seq<TileType>, player: Player) -> int {
    spec_score_upto(g, player, SENTINEL_INDEX as int)
}

/// Partial sums grow with the scanned prefix.
pub proof fn lemma_score_upto_mono(g: Seq<TileType>, player: Player, i: int, j: int)
    requires
        i <= j,
    ensures
        spec_score_upto(g, player, i) <= spec_score_upto(g, player, j),
    decreases j - i,
{
    if i < j {
        lemma_score_upto_mono(g, player, i, j - 1);
    }
}

/// Scores start at the one base point and never fall below it.
pub proof fn lemma_score_pos(g: Seq<TileType>, player: Player, i: int)
    ensures
        spec_score_upto(g, player, i) >= 1,
    decreases i,
{
    if i > 0 {
        lemma_score_pos(g, player, i - 1);
    }
}

/// Replacing one cell shifts the score by the difference of that cell's
/// contributions.
pub proof fn lemma_score_upto_update(
    g: Seq<TileType>,
    player: Player,
    i: int,
    t: TileType,
    n: int,
)
    requires
        0 <= i < g.len(),
        n <= g.len(),
    ensures
        i < n ==> spec_score_upto(g.update(i, t), player, n) == spec_score_upto(g, player, n)
            - spec_contrib(g[i], player) + spec_contrib(t, player),
        i >= n ==> spec_score_upto(g.update(i, t), player, n) == spec_score_upto(g, player, n),
    decreases n,
{
    if n > 0 {
        lemma_score_upto_update(g, player, i, t, n - 1);
    }
}

/// A grid whose cells contribute no more than another's, slot for slot,
/// scores no higher.
pub proof fn lemma_score_upto_le(g1: Seq<TileType>, g2: Seq<TileType>, player: Player, n: int)
    requires
        forall|j: int|
            0 <= j < n ==> spec_contrib(g1[j], player) <= spec_contrib(g2[j], player),
    ensures
        spec_score_upto(g1, player, n) <= spec_score_upto(g2, player, n),
    decreases n,
{
    if n > 0 {
        lemma_score_upto_le(g1, g2, player, n - 1);
    }
}

/// The disconnection sweep only clears cells, so it never raises a score.
pub proof fn lemma_score_sweep_le(g: Seq<TileType>, player: Player)
    requires
        g.len() == GRID_SIZE,
    ensures
        spec_score(spec_sweep(g), player) <= spec_score(g, player),
{
    lemma_score_upto_le(spec_sweep(g), g, player, SENTINEL_INDEX as int);
}

/// The per-player economy tallies: `counts` is the committed level sum,
/// `points` what has been spent against it since the last rescan.
#[derive(Copy, Clone, Debug, PartialEq, Eq)]
pub struct FarmCounter {
    pub counts: [usize; 2],
    pub points: [usize; 2],
}

impl Default for FarmCounter {
    fn default() -> (r: FarmCounter)
        ensures
            r == (FarmCounter { counts: [0usize, 0usize], points: [0usize, 0usize] }),
    {
        FarmCounter { counts: [0, 0], points: [0, 0] }
    }
}

impl FarmCounter {
    /// Nothing spent exceeds what was counted.
    pub open spec fn wf(self) -> bool {
        &&& self.points[0] <= self.counts[0]
        &&& self.points[1] <= self.counts[1]
    }

    /// What each player may still spend, Red in slot 0 and Blue in slot 1.
    pub fn available_farms(&self) -> (r: [usize; 2])
        requires
            self.wf(),
        ensures
            r[0] == self.counts[0] - self.points[0],
            r[1] == self.counts[1] - self.points[1],
    {
        [self.counts[0] - self.points[0], self.counts[1] - self.points[1]]
    }

    /// Rescan `grid` from scratch: each player's count becomes one base
    /// point plus the levels of every owned Farm and ordinary Tile, and the
    /// spent points reset to zero.
    pub fn update(&mut self, grid: &TileGrid)
        requires
            grid.wf(),
            spec_score(grid.grid@, Player::Red) <= usize::MAX,
            spec_score(grid.grid@, Player::Blue) <= usize::MAX,
        ensures
            final(self).counts[0] == spec_score(grid.grid@, Player::Red),
            final(self).counts[1] == spec_score(grid.grid@, Player::Blue),
            final(self).points[0] == 0,
            final(self).points[1] == 0,
            final(self).wf(),
    {
        let mut counts: [usize; 2] = [1, 1];
        let mut i: usize = 0;
        while i < SENTINEL_INDEX
            invariant
                grid.wf(),
                i <= SENTINEL_INDEX,
                spec_score(grid.grid@, Player::Red) <= usize::MAX,
                spec_score(grid.grid@, Player::Blue) <= usize::MAX,
                counts[0] == spec_score_upto(grid.grid@, Player::Red, i as int),
                counts[1] == spec_score_upto(grid.grid@, Player::Blue, i as int),
            decreases SENTINEL_INDEX - i,
        {
            proof {
                lemma_score_upto_mono(grid.grid@, Player::Red, i as int + 1, SENTINEL_INDEX as int);
                lemma_score_upto_mono(grid.grid@, Player::Blue, i as int + 1, SENTINEL_INDEX as int);
                lemma_score_pos(grid.grid@, Player::Red, i as int);
                lemma_score_pos(grid.grid@, Player::Blue, i as int);
            }
            let tile = grid.grid[i];
            if tile.is_farm() || tile.is_tile() {
                match (tile.owner(), tile.level()) {
                    (Some(owner), Some(level)) => {
                        let slot = owner.index();
                        counts[slot] = counts[slot] + level;
                    },
                    _ => {},
                }
            }
            i = i + 1;
        }
        self.counts = counts;
        self.points = [0, 0];
    }
}

} // verus!
