//! The ownership mirror the peer-to-peer build keeps beside its entity
//! components: per cell, who owns it and whether it is a base.
//!
//! It shares the core grid's coordinate chokepoint and the verified
//! reachability search.

use vstd::prelude::*;

use crate::consts::{GRID_SIZE, SENTINEL_INDEX};
use crate::grid::{spec_in_bounds, spec_index_of, GridVec};
use crate::player::Player;
use crate::reach::{search, spec_reachable};

verus! {

/// One mirrored cell: its owner, if any, and whether it is a base.
pub type OwnerCell = (Option<Player>, bool);

/// The ownership mirror: one `OwnerCell` per backing-array slot, the last
/// being the sentinel every off-board coordinate maps to.
#[derive(Clone, Debug, PartialEq, Eq)]
pub struct TileGrid {
    pub grid: Vec<OwnerCell>,
}

/// The owner of each slot.
pub open spec fn spec_owners_of(g: Seq<OwnerCell>) -> Seq<Option<Player>> {
    Seq::new(g.len(), |i: int| g[i].0)
}

/// The base flag of each slot.
pub open spec fn spec_bases_of(g: Seq<OwnerCell>) -> Seq<bool> {
    Seq::new(g.len(), |i: int| g[i].1)
}

/// The cells the adjacency scan yields around `pos`: each 4-neighbour
/// owned by `owner`, scanned right, left, up, down.
pub open spec fn spec_neighbor_entry(g: Seq<OwnerCell>, x: int, y: int, owner: Player) -> Seq<
    GridVec,
> {
    if g[spec_index_of(x, y)].0 == Some(owner) {
        seq![GridVec { x: x as i32, y: y as i32 }]
    } else {
        Seq::empty()
    }
}

/// The 4-neighbours of `pos` that `owner` holds, in scan order.
pub open spec fn spec_connected_neighbors(g: Seq<OwnerCell>, pos: GridVec, owner: Player) -> Seq<
    GridVec,
> {
    spec_neighbor_entry(g, pos.x as int + 1, pos.y as int, owner) + spec_neighbor_entry(
        g,
        pos.x as int - 1,
        pos.y as int,
        owner,
    ) + spec_neighbor_entry(g, pos.x as int, pos.y as int + 1, owner) + spec_neighbor_entry(
        g,
        pos.x as int,
        pos.y as int - 1,
        owner,
    )
}

impl Default for TileGrid {
    /// A fresh mirror: every cell unowned and baseless.
    fn default() -> (r: TileGrid)
        ensures
            r.wf(),
            r.grid@.len() == GRID_SIZE,
            forall|j: int| 0 <= j < GRID_SIZE ==> #[trigger] r.grid@[j] == (None::<Player>, false),
    {
        let mut grid: Vec<OwnerCell> = Vec::new();
        let mut i: usize = 0;
        while i < GRID_SIZE
            invariant
                i <= GRID_SIZE,
                grid@.len() == i,
                forall|j: int| 0 <= j < i ==> #[trigger] grid@[j] == (None::<Player>, false),
            decreases GRID_SIZE - i,
        {
            grid.push((None, false));
            i = i + 1;
        }
        TileGrid { grid }
    }
}

impl TileGrid {
    /// The backing vector has its fixed size and the sentinel slot is
    /// unowned and baseless.
    pub open spec fn wf(self) -> bool {
        &&& self.grid@.len() == GRID_SIZE
        &&& self.grid@[SENTINEL_INDEX as int] == (None::<Player>, false)
    }

    /// Whether `(x, y)` lies on the board.
    pub fn in_bounds(x: i32, y: i32) -> (r: bool)
        ensures
            r == spec_in_bounds(x as int, y as int),
    {
        crate::grid::TileGrid::in_bounds(x, y)
    }

    /// The slot of `(x, y)`: shared with the core grid's chokepoint, so
    /// off-board coordinates land on the sentinel.
    pub fn get_index(index: GridVec) -> (r: usize)
        ensures
            r == spec_index_of(index.x as int, index.y as int),
            r < GRID_SIZE,
    {
        crate::grid::TileGrid::get_index(index)
    }

    /// The mirrored cell at `index`; off-board reads the sentinel.
    pub fn get_tile(&self, index: GridVec) -> (r: OwnerCell)
        requires
            self.wf(),
        ensures
            r == self.grid@[spec_index_of(index.x as int, index.y as int)],
    {
        self.grid[Self::get_index(index)]
    }

    /// The mirrored cell at an `(x, y)` tuple.
    pub fn get_tile_tup(&self, x: i32, y: i32) -> (r: OwnerCell)
        requires
            self.wf(),
        ensures
            r == self.grid@[spec_index_of(x as int, y as int)],
    {
        self.grid[Self::get_index(GridVec { x, y })]
    }

    /// Record `owner` for the cell at `index`, keeping its base flag; a
    /// no-op off-board.
    pub fn set_owner(&mut self, index: GridVec, owner: Option<Player>)
        requires
            old(self).wf(),
        ensures
            final(self).wf(),
            final(self).grid@ == (if spec_in_bounds(index.x as int, index.y as int) {
                old(self).grid@.update(
                    spec_index_of(index.x as int, index.y as int),
                    (owner, old(self).grid@[spec_index_of(index.x as int, index.y as int)].1),
                )
            } else {
                old(self).grid@
            }),
    {
        let idx = Self::get_index(index);
        if idx != SENTINEL_INDEX {
            let base = self.grid[idx].1;
            self.grid.set(idx, (owner, base));
        }
    }

    /// Mark `owner`'s fixed corner as a base cell owned by `owner`.
    pub fn make_base(&mut self, owner: Player)
        requires
            old(self).wf(),
        ensures
            final(self).wf(),
            final(self).grid@ == old(self).grid@.update(
                spec_index_of(
                    crate::grid::spec_base_position(owner).x as int,
                    crate::grid::spec_base_position(owner).y as int,
                ),
                (Some(owner), true),
            ),
    {
        let position = match owner {
            Player::Red => GridVec {
                x: -crate::consts::MAP_WIDTH,
                y: -crate::consts::MAP_HEIGHT,
            },
            Player::Blue => GridVec {
                x: crate::consts::MAP_WIDTH - 1,
                y: crate::consts::MAP_HEIGHT - 1,
            },
        };
        let idx = Self::get_index(position);
        self.grid.set(idx, (Some(owner), true));
    }

    /// Append the neighbour record for the cell one step along `(dx, dy)`.
    fn push_neighbor(&self, result: &mut Vec<GridVec>, pos: GridVec, dx: i32, dy: i32, owner: Player)
        requires
            self.wf(),
            -1 <= dx <= 1,
            -1 <= dy <= 1,
        ensures
            final(result)@ == old(result)@ + spec_neighbor_entry(
                self.grid@,
                pos.x as int + dx as int,
                pos.y as int + dy as int,
                owner,
            ),
    {
        let nx = pos.x as i64 + dx as i64;
        let ny = pos.y as i64 + dy as i64;
        if nx >= -(crate::consts::MAP_WIDTH as i64) && ny >= -(crate::consts::MAP_HEIGHT as i64)
            && nx < crate::consts::MAP_WIDTH as i64 && ny < crate::consts::MAP_HEIGHT as i64 {
            let n = GridVec { x: nx as i32, y: ny as i32 };
            let held = match self.get_tile(n).0 {
                Some(p) => p == owner,
                None => false,
            };
            if held {
                result.push(n);
                return ;
            }
        }
        proof {
            assert(old(result)@ + spec_neighbor_entry(
                self.grid@,
                pos.x as int + dx as int,
                pos.y as int + dy as int,
                owner,
            ) =~= old(result)@);
        }
    }

    /// The 4-neighbours of `pos` that `owner` holds.
    pub fn get_connected_tiles(&self, pos: GridVec, owner: Player) -> (r: Vec<GridVec>)
        requires
            self.wf(),
        ensures
            r@ == spec_connected_neighbors(self.grid@, pos, owner),
    {
        let mut result: Vec<GridVec> = Vec::new();
        self.push_neighbor(&mut result, pos, 1, 0, owner);
        self.push_neighbor(&mut result, pos, -1, 0, owner);
        self.push_neighbor(&mut result, pos, 0, 1, owner);
        self.push_neighbor(&mut result, pos, 0, -1, owner);
        result
    }

    /// Any one 4-neighbour of `pos` that `owner` holds: the first the scan
    /// finds.
    pub fn get_any_connected(&self, pos: GridVec, owner: Player) -> (r: Option<GridVec>)
        requires
            self.wf(),
        ensures
            r == (if spec_connected_neighbors(self.grid@, pos, owner).len() > 0 {
                Some(spec_connected_neighbors(self.grid@, pos, owner)[0])
            } else {
                None::<GridVec>
            }),
    {
        let tiles = self.get_connected_tiles(pos, owner);
        if tiles.len() > 0 {
            Some(tiles[0])
        } else {
            None
        }
    }

    /// Whether a path of `player`-owned 4-connected cells leads from
    /// `start` to a base cell owned by `player`.
    pub fn is_connected_to_base(&self, start: GridVec, player: Player) -> (r: bool)
        requires
            self.wf(),
        ensures
            r == spec_reachable(
                spec_owners_of(self.grid@),
                spec_bases_of(self.grid@),
                start,
                player,
            ),
    {
        let mut owners: Vec<Option<Player>> = Vec::new();
        let mut bases: Vec<bool> = Vec::new();
        let mut i: usize = 0;
        while i < GRID_SIZE
            invariant
                self.wf(),
                i <= GRID_SIZE,
                owners@.len() == i,
                bases@.len() == i,
                forall|j: int| 0 <= j < i ==> owners@[j] == self.grid@[j].0,
                forall|j: int| 0 <= j < i ==> bases@[j] == self.grid@[j].1,
            decreases GRID_SIZE - i,
        {
            let cell = self.grid[i];
            owners.push(cell.0);
            bases.push(cell.1);
            i = i + 1;
        }
        proof {
            assert(owners@ =~= spec_owners_of(self.grid@));
            assert(bases@ =~= spec_bases_of(self.grid@));
        }
        search(&owners, &bases, start, player)
    }
}

} // verus!
