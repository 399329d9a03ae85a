//! The grid store: a flat array of tiles with a single bounds-checked
//! coordinate-to-index chokepoint and a reserved sentinel slot.
//!
//! Every out-of-range coordinate maps to the sentinel index; reads off it
//! return a default empty cell and writes to it are no-ops, so no caller ever
//! branches on bounds.

use vstd::prelude::*;

use crate::consts::{GRID_SIZE, MAP_HEIGHT, MAP_WIDTH, SENTINEL_INDEX};
use crate::events::TileChange;
use crate::player::Player;
use crate::reach::{search, spec_is_path, spec_linked, spec_reachable};
use crate::tiles::{PlayerTile, Terrain, TileType};

verus! {

/// An integer grid coordinate pair.  The board occupies
/// `-MAP_WIDTH <= x < MAP_WIDTH` and `-MAP_HEIGHT <= y < MAP_HEIGHT`;
/// values outside that range denote off-board positions.
#[derive(Copy, Clone, PartialEq, Eq, Structural, Debug, Hash)]
pub struct GridVec {
    pub x: i32,
    pub y: i32,
}

impl GridVec {
    pub fn new(x: i32, y: i32) -> (r: GridVec)
        ensures
            r == (GridVec { x, y }),
    {
        GridVec { x, y }
    }
}

/// Whether `(x, y)` lies on the board.
pub open spec fn spec_in_bounds(x: int, y: int) -> bool {
    &&& x >= -(MAP_WIDTH as int)
    &&& y >= -(MAP_HEIGHT as int)
    &&& x < MAP_WIDTH as int
    &&& y < MAP_HEIGHT as int
}

/// Index of `(x, y)` in the backing array: row-major over the shifted
/// coordinates for in-bounds positions, the sentinel for all others.
pub open spec fn spec_index_of(x: int, y: int) -> int {
    if spec_in_bounds(x, y) {
        (y + MAP_HEIGHT as int) * 16 + (x + MAP_WIDTH as int)
    } else {
        SENTINEL_INDEX as int
    }
}

/// The coordinate whose index is `index`, for `index < SENTINEL_INDEX`.
pub open spec fn spec_vec_of_index(index: int) -> GridVec {
    GridVec {
        x: (index % 16 - MAP_WIDTH as int) as i32,
        y: (index / 16 - MAP_HEIGHT as int) as i32,
    }
}

/// In-bounds coordinates map below the sentinel.
pub proof fn lemma_index_in_range(x: int, y: int)
    ensures
        0 <= spec_index_of(x, y) < GRID_SIZE,
        spec_in_bounds(x, y) ==> spec_index_of(x, y) < SENTINEL_INDEX,
        !spec_in_bounds(x, y) ==> spec_index_of(x, y) == SENTINEL_INDEX,
{
}

/// The index transform is injective on in-bounds coordinates.
pub proof fn lemma_index_injective(a: GridVec, b: GridVec)
    requires
        spec_in_bounds(a.x as int, a.y as int),
        spec_in_bounds(b.x as int, b.y as int),
        spec_index_of(a.x as int, a.y as int) == spec_index_of(b.x as int, b.y as int),
    ensures
        a == b,
{
    lemma_index_inverse(a);
    lemma_index_inverse(b);
}

/// The index transform is inverse-consistent: recovering the coordinate of
/// an in-bounds position's index yields that position.
pub proof fn lemma_index_inverse(p: GridVec)
    requires
        spec_in_bounds(p.x as int, p.y as int),
    ensures
        spec_vec_of_index(spec_index_of(p.x as int, p.y as int)) == p,
{
    let sx = p.x as int + MAP_WIDTH as int;
    let sy = p.y as int + MAP_HEIGHT as int;
    assert((sy * 16 + sx) % 16 == sx && (sy * 16 + sx) / 16 == sy) by (nonlinear_arith)
        requires
            0 <= sx < 16,
            0 <= sy,
    ;
}

/// Every index below the sentinel is the image of its own coordinate.
pub proof fn lemma_vec_of_index_inverse(index: int)
    requires
        0 <= index < SENTINEL_INDEX,
    ensures
        spec_in_bounds(
            spec_vec_of_index(index).x as int,
            spec_vec_of_index(index).y as int,
        ),
        spec_index_of(
            spec_vec_of_index(index).x as int,
            spec_vec_of_index(index).y as int,
        ) == index,
{
    assert(0 <= index % 16 < 16 && 16 * (index / 16) + index % 16 == index && 0 <= index / 16 < 8);
}

/// The coordinate at `index` in the backing array, as executable code:
/// `x = index % 16 - 8`, `y = index / 16 - 4`.
pub fn get_vec_from_index(index: usize) -> (r: GridVec)
    requires
        index < SENTINEL_INDEX,
    ensures
        r == spec_vec_of_index(index as int),
        spec_in_bounds(r.x as int, r.y as int),
        spec_index_of(r.x as int, r.y as int) == index,
{
    proof {
        lemma_vec_of_index_inverse(index as int);
    }
    GridVec {
        x: (index % 16) as i32 - MAP_WIDTH,
        y: (index / 16) as i32 - MAP_HEIGHT,
    }
}

/// The grid of one match: `GRID_SIZE` tiles, the last of which is the
/// sentinel slot.
#[derive(Clone, Debug, PartialEq, Eq)]
pub struct TileGrid {
    pub grid: Vec<TileType>,
}

impl TileGrid {
    /// Structural well-formedness: the backing vector has its fixed size and
    /// the sentinel slot holds the default empty cell.
    pub open spec fn wf(self) -> bool {
        &&& self.grid@.len() == GRID_SIZE
        &&& self.grid@[SENTINEL_INDEX as int] == TileType::Empty(Terrain::Plain)
    }

    /// The tile the grid holds at `(x, y)`, the default empty cell off-board.
    pub open spec fn spec_tile_at(self, x: int, y: int) -> TileType {
        self.grid@[spec_index_of(x, y)]
    }

    /// Whether `(x, y)` lies on the board.
    pub fn in_bounds(x: i32, y: i32) -> (r: bool)
        ensures
            r == spec_in_bounds(x as int, y as int),
    {
        x >= -MAP_WIDTH && y >= -MAP_HEIGHT && x < MAP_WIDTH && y < MAP_HEIGHT
    }

    /// Whether the coordinate pair lies on the board.
    pub fn in_bounds_index(index: &GridVec) -> (r: bool)
        ensures
            r == spec_in_bounds(index.x as int, index.y as int),
    {
        Self::in_bounds(index.x, index.y)
    }

    /// The single coordinate-to-index chokepoint: in-bounds coordinates get
    /// their row-major slot, all others the sentinel.
    pub fn get_index(index: GridVec) -> (r: usize)
        ensures
            r == spec_index_of(index.x as int, index.y as int),
            r < GRID_SIZE,
    {
        if !Self::in_bounds(index.x, index.y) {
            return SENTINEL_INDEX;
        }
        // The row stride is 16 == 2 * MAP_WIDTH.
        ((index.y + MAP_HEIGHT) as usize) * 16 + ((index.x + MAP_WIDTH) as usize)
    }

    /// The tile at `index`; total, returning the sentinel's empty cell for
    /// any off-board coordinate.
    pub fn get_tile(&self, index: GridVec) -> (r: TileType)
        requires
            self.wf(),
        ensures
            r == self.spec_tile_at(index.x as int, index.y as int),
    {
        self.grid[Self::get_index(index)]
    }

    /// The tile at an `(x, y)` tuple; total in the same way as `get_tile`.
    pub fn get_tile_tup(&self, x: i32, y: i32) -> (r: TileType)
        requires
            self.wf(),
        ensures
            r == self.spec_tile_at(x as int, y as int),
    {
        self.grid[Self::get_index(GridVec { x, y })]
    }

    /// Write `tile` at `index`; a no-op for off-board coordinates, so the
    /// sentinel slot never changes.
    pub fn set_tile(&mut self, index: GridVec, tile: TileType)
        requires
            old(self).wf(),
        ensures
            final(self).wf(),
            final(self).grid@ == spec_set_tile(old(self).grid@, index, tile),
    {
        let idx = Self::get_index(index);
        if idx != SENTINEL_INDEX {
            self.grid.set(idx, tile);
        }
    }
}

/// Spec view of `set_tile`: the grid with `tile` at the index of `index`,
/// unchanged when `index` is off-board.
pub open spec fn spec_set_tile(g: Seq<TileType>, index: GridVec, tile: TileType) -> Seq<TileType> {
    if spec_in_bounds(index.x as int, index.y as int) {
        g.update(spec_index_of(index.x as int, index.y as int), tile)
    } else {
        g
    }
}

/// Where a player's base stands: Red in the lower-left corner, Blue in the
/// upper-right one.
pub open spec fn spec_base_position(owner: Player) -> GridVec {
    match owner {
        Player::Red => GridVec {
            x: (-(MAP_WIDTH as int)) as i32,
            y: (-(MAP_HEIGHT as int)) as i32,
        },
        Player::Blue => GridVec { x: (MAP_WIDTH - 1) as i32, y: (MAP_HEIGHT - 1) as i32 },
    }
}

/// The base tile a player starts with: level 1, 2 hit points, plain terrain.
pub open spec fn spec_base_tile(owner: Player) -> TileType {
    TileType::Occupied {
        player_tile: PlayerTile::Base,
        terrain: Terrain::Plain,
        owner,
        level: 1usize,
        hp: 2usize,
    }
}

/// The grid a match starts from: all cells empty but the two bases.
pub open spec fn spec_default_grid() -> Seq<TileType> {
    Seq::new(GRID_SIZE as nat, |i: int|
        if i == spec_index_of(
            spec_base_position(Player::Red).x as int,
            spec_base_position(Player::Red).y as int,
        ) {
            spec_base_tile(Player::Red)
        } else if i == spec_index_of(
            spec_base_position(Player::Blue).x as int,
            spec_base_position(Player::Blue).y as int,
        ) {
            spec_base_tile(Player::Blue)
        } else {
            TileType::Empty(Terrain::Plain)
        })
}

impl Default for TileGrid {
    /// A fresh match grid: both bases pre-placed, everything else empty.
    fn default() -> (r: TileGrid)
        ensures
            r.wf(),
            r.grid@ == spec_default_grid(),
    {
        let mut grid: Vec<TileType> = Vec::new();
        let mut i: usize = 0;
        while i < GRID_SIZE
            invariant
                i <= GRID_SIZE,
                grid@.len() == i,
                forall|j: int| 0 <= j < i ==> grid@[j] == TileType::Empty(Terrain::Plain),
            decreases GRID_SIZE - i,
        {
            grid.push(TileType::Empty(Terrain::Plain));
            i = i + 1;
        }
        let mut def = TileGrid { grid };
        def.make_base(Player::Red);
        def.make_base(Player::Blue);
        proof {
            assert(def.grid@ =~= spec_default_grid());
        }
        def
    }
}

impl TileGrid {
    /// Place `owner`'s immutable Base in its fixed corner.
    pub fn make_base(&mut self, owner: Player)
        requires
            old(self).wf(),
        ensures
            final(self).wf(),
            final(self).grid@ == spec_set_tile(
                old(self).grid@,
                spec_base_position(owner),
                spec_base_tile(owner),
            ),
    {
        let position = match owner {
            Player::Red => GridVec { x: -MAP_WIDTH, y: -MAP_HEIGHT },
            Player::Blue => GridVec { x: MAP_WIDTH - 1, y: MAP_HEIGHT - 1 },
        };
        let tile = TileType::Occupied {
            player_tile: PlayerTile::Base,
            terrain: Terrain::Plain,
            owner,
            level: 1,
            hp: 2,
        };
        self.set_tile(position, tile);
    }

    /// Clear the cell at `index` to empty; its terrain is preserved.  A
    /// no-op off-board.
    pub fn empty(&mut self, index: GridVec)
        requires
            old(self).wf(),
        ensures
            final(self).wf(),
            final(self).grid@ == spec_set_tile(
                old(self).grid@,
                index,
                TileType::Empty(
                    old(self).spec_tile_at(index.x as int, index.y as int).spec_terrain(),
                ),
            ),
    {
        let mut tile = self.get_tile(index);
        tile.empty();
        self.set_tile(index, tile);
    }

    /// Raise the level and hp of the cell at `index` by one; a no-op on
    /// empty cells and off-board.
    pub fn upgrade(&mut self, index: GridVec)
        requires
            old(self).wf(),
            old(self).spec_tile_at(index.x as int, index.y as int).spec_level() is Some ==> {
                &&& old(self).spec_tile_at(index.x as int, index.y as int).spec_level()->Some_0
                    < usize::MAX
                &&& old(self).spec_tile_at(index.x as int, index.y as int).spec_hp() < usize::MAX
            },
        ensures
            final(self).wf(),
            final(self).grid@ == spec_set_tile(
                old(self).grid@,
                index,
                old(self).spec_tile_at(index.x as int, index.y as int).spec_upgraded(),
            ),
    {
        let mut tile = self.get_tile(index);
        tile.upgrade();
        self.set_tile(index, tile);
    }

    /// Deal `damage` hit points to the cell at `index`, saturating at zero,
    /// and return the remaining hp.  Empty cells and off-board positions
    /// report zero.
    pub fn damage(&mut self, index: GridVec, damage: usize) -> (r: usize)
        requires
            old(self).wf(),
        ensures
            final(self).wf(),
            final(self).grid@ == spec_set_tile(
                old(self).grid@,
                index,
                old(self).spec_tile_at(index.x as int, index.y as int).spec_damaged(damage),
            ),
            r == old(self).spec_tile_at(index.x as int, index.y as int).spec_damaged(
                damage,
            ).spec_hp(),
    {
        let mut tile = self.get_tile(index);
        let r = tile.damage(damage);
        self.set_tile(index, tile);
        r
    }

    /// Unconditionally hand the cell at `index` to `player`: an ordinary
    /// Tile at level 1 with the terrain's base health, the terrain itself
    /// preserved.  A no-op off-board.
    pub fn capture(&mut self, index: GridVec, player: Player)
        requires
            old(self).wf(),
        ensures
            final(self).wf(),
            final(self).grid@ == spec_set_tile(
                old(self).grid@,
                index,
                spec_captured(old(self).spec_tile_at(index.x as int, index.y as int), player),
            ),
    {
        let tile = self.get_tile(index);
        let terrain = tile.terrain();
        self.set_tile(
            index,
            TileType::Occupied {
                player_tile: PlayerTile::Tile,
                terrain,
                owner: player,
                level: 1,
                hp: terrain.get_health(),
            },
        );
    }

    /// Per-player elimination flags: a player is eliminated when it owns no
    /// Farm or ordinary Tile anywhere (the indestructible Base does not
    /// count).  Slot 0 reports Red, slot 1 Blue.
    pub fn check_win(&self) -> (r: [bool; 2])
        requires
            self.wf(),
        ensures
            r[0] == !spec_has_territory(self.grid@, Player::Red),
            r[1] == !spec_has_territory(self.grid@, Player::Blue),
    {
        let mut counts: [usize; 2] = [0, 0];
        let mut i: usize = 0;
        while i < SENTINEL_INDEX
            invariant
                self.wf(),
                i <= SENTINEL_INDEX,
                (counts[0] > 0) == (exists|j: int|
                    0 <= j < i && spec_counts_for(self.grid@[j], Player::Red)),
                (counts[1] > 0) == (exists|j: int|
                    0 <= j < i && spec_counts_for(self.grid@[j], Player::Blue)),
            decreases SENTINEL_INDEX - i,
        {
            let tile = self.grid[i];
            if tile.is_farm() || tile.is_tile() {
                match tile.owner() {
                    Some(owner) => {
                        let s = counts[owner.index()];
                        if s < usize::MAX {
                            counts[owner.index()] = s + 1;
                        }
                    },
                    None => {},
                }
            }
            i = i + 1;
        }
        [counts[0] == 0, counts[1] == 0]
    }
}

/// Spec view of `capture`: the pre-capture state is discarded but for the
/// terrain, which also fixes the fresh cell's hit points.
pub open spec fn spec_captured(tile: TileType, player: Player) -> TileType {
    TileType::Occupied {
        player_tile: PlayerTile::Tile,
        terrain: tile.spec_terrain(),
        owner: player,
        level: 1usize,
        hp: tile.spec_terrain().spec_health(),
    }
}

/// Whether `tile` counts towards `player`'s survival: an owned Farm or
/// ordinary Tile, not the Base.
pub open spec fn spec_counts_for(tile: TileType, player: Player) -> bool {
    &&& tile.spec_is_farm() || tile.spec_is_tile()
    &&& tile.spec_owner() == Some(player)
}

/// Whether `player` still owns any Farm or ordinary Tile.
pub open spec fn spec_has_territory(g: Seq<TileType>, player: Player) -> bool {
    exists|j: int| 0 <= j < SENTINEL_INDEX && spec_counts_for(g[j], player)
}

/// The owner of each slot of `g`.
pub open spec fn spec_owners_of(g: Seq<TileType>) -> Seq<Option<Player>> {
    Seq::new(g.len(), |i: int| g[i].spec_owner())
}

/// The base flag of each slot of `g`.
pub open spec fn spec_bases_of(g: Seq<TileType>) -> Seq<bool> {
    Seq::new(g.len(), |i: int| g[i].spec_is_base_role())
}

/// Whether a path of `player`-owned 4-connected cells leads from `start`
/// to a Base owned by `player` in `g`.
pub open spec fn spec_connected_to_base(g: Seq<TileType>, start: GridVec, player: Player) -> bool {
    spec_reachable(spec_owners_of(g), spec_bases_of(g), start, player)
}

/// The neighbour record the adjacency scan yields for `(x, y)`: the
/// position itself when `owner` holds it, nothing otherwise.
pub open spec fn spec_neighbor_entry(g: Seq<TileType>, x: int, y: int, owner: Player) -> Seq<
    GridVec,
> {
    if g[spec_index_of(x, y)].spec_owner() == Some(owner) {
        seq![GridVec { x: x as i32, y: y as i32 }]
    } else {
        Seq::empty()
    }
}

/// The 4-neighbours of `pos` that `owner` holds, scanned right, left, up,
/// down.
pub open spec fn spec_connected_neighbors(g: Seq<TileType>, pos: GridVec, owner: Player) -> Seq<
    GridVec,
> {
    spec_neighbor_entry(g, pos.x as int + 1, pos.y as int, owner) + spec_neighbor_entry(
        g,
        pos.x as int - 1,
        pos.y as int,
        owner,
    ) + spec_neighbor_entry(g, pos.x as int, pos.y as int + 1, owner) + spec_neighbor_entry(
        g,
        pos.x as int,
        pos.y as int - 1,
        owner,
    )
}

/// The first entry of the adjacency scan, if any.
pub open spec fn spec_any_connected(g: Seq<TileType>, pos: GridVec, owner: Player) -> Option<
    GridVec,
> {
    let ns = spec_connected_neighbors(g, pos, owner);
    if ns.len() > 0 {
        Some(ns[0])
    } else {
        None
    }
}

impl TileGrid {
    /// Append the neighbour record for the cell one step along `(dx, dy)`
    /// from `pos`: its position exactly when `owner` holds it.
    fn push_neighbor(&self, result: &mut Vec<GridVec>, pos: GridVec, dx: i32, dy: i32, owner: Player)
        requires
            self.wf(),
            -1 <= dx <= 1,
            -1 <= dy <= 1,
        ensures
            final(result)@ == old(result)@ + spec_neighbor_entry(
                self.grid@,
                pos.x as int + dx as int,
                pos.y as int + dy as int,
                owner,
            ),
    {
        let nx = pos.x as i64 + dx as i64;
        let ny = pos.y as i64 + dy as i64;
        if nx >= -(MAP_WIDTH as i64) && ny >= -(MAP_HEIGHT as i64) && nx < MAP_WIDTH as i64 && ny
            < MAP_HEIGHT as i64 {
            let n = GridVec { x: nx as i32, y: ny as i32 };
            let held = match self.get_tile(n).owner() {
                Some(p) => p == owner,
                None => false,
            };
            if held {
                result.push(n);
                return ;
            }
        }
        proof {
            assert(old(result)@ + spec_neighbor_entry(
                self.grid@,
                pos.x as int + dx as int,
                pos.y as int + dy as int,
                owner,
            ) =~= old(result)@);
        }
    }

    /// The 4-neighbours of `pos` that `owner` holds.
    pub fn get_connected_tiles(&self, pos: GridVec, owner: Player) -> (r: Vec<GridVec>)
        requires
            self.wf(),
        ensures
            r@ == spec_connected_neighbors(self.grid@, pos, owner),
    {
        let mut result: Vec<GridVec> = Vec::new();
        self.push_neighbor(&mut result, pos, 1, 0, owner);
        self.push_neighbor(&mut result, pos, -1, 0, owner);
        self.push_neighbor(&mut result, pos, 0, 1, owner);
        self.push_neighbor(&mut result, pos, 0, -1, owner);
        result
    }

    /// Any one 4-neighbour of `pos` that `owner` holds: the first the scan
    /// finds, used to infer an implicit attack origin.
    pub fn get_any_connected(&self, pos: GridVec, owner: Player) -> (r: Option<GridVec>)
        requires
            self.wf(),
        ensures
            r == spec_any_connected(self.grid@, pos, owner),
    {
        let tiles = self.get_connected_tiles(pos, owner);
        if tiles.len() > 0 {
            Some(tiles[0])
        } else {
            None
        }
    }

    /// Whether a path of `player`-owned 4-connected cells leads from
    /// `start` to a Base owned by `player`.
    pub fn is_connected_to_base(&self, start: GridVec, player: Player) -> (r: bool)
        requires
            self.wf(),
        ensures
            r == spec_connected_to_base(self.grid@, start, player),
    {
        let mut owners: Vec<Option<Player>> = Vec::new();
        let mut bases: Vec<bool> = Vec::new();
        let mut i: usize = 0;
        while i < GRID_SIZE
            invariant
                self.wf(),
                i <= GRID_SIZE,
                owners@.len() == i,
                bases@.len() == i,
                forall|j: int| 0 <= j < i ==> owners@[j] == self.grid@[j].spec_owner(),
                forall|j: int| 0 <= j < i ==> bases@[j] == self.grid@[j].spec_is_base_role(),
            decreases GRID_SIZE - i,
        {
            let tile = self.grid[i];
            owners.push(tile.owner());
            bases.push(matches!(tile, TileType::Occupied { player_tile: PlayerTile::Base, .. }));
            i = i + 1;
        }
        proof {
            assert(owners@ =~= spec_owners_of(self.grid@));
            assert(bases@ =~= spec_bases_of(self.grid@));
        }
        search(&owners, &bases, start, player)
    }
}

/// Whether the cell at slot `i` falls to the disconnection sweep: an owned
/// Farm or ordinary Tile with no path to its owner's Base.
pub open spec fn spec_removed(g: Seq<TileType>, i: int) -> bool {
    match g[i] {
        TileType::Occupied { player_tile, owner, .. } => {
            &&& (player_tile == PlayerTile::Farm || player_tile == PlayerTile::Tile)
            &&& !spec_connected_to_base(g, spec_vec_of_index(i), owner)
        },
        _ => false,
    }
}

/// The grid after one disconnection sweep: every cell the sweep catches is
/// cleared to empty with its terrain preserved, all others stay.
pub open spec fn spec_sweep(g: Seq<TileType>) -> Seq<TileType> {
    Seq::new(g.len(), |i: int|
        if 0 <= i < SENTINEL_INDEX && spec_removed(g, i) {
            TileType::Empty(g[i].spec_terrain())
        } else {
            g[i]
        })
}

/// No owned Farm or ordinary Tile of `g` is cut off from its owner's Base.
pub open spec fn spec_all_connected(g: Seq<TileType>) -> bool {
    forall|i: int| 0 <= i < SENTINEL_INDEX ==> !spec_removed(g, i)
}

/// The slots below `i` that the sweep catches, in ascending order.
pub open spec fn spec_removed_list(g: Seq<TileType>, i: int) -> Seq<usize>
    decreases i,
{
    if i <= 0 {
        Seq::empty()
    } else {
        let rest = spec_removed_list(g, i - 1);
        if spec_removed(g, i - 1) {
            rest.push((i - 1) as usize)
        } else {
            rest
        }
    }
}

/// The diff records one sweep of `g` emits, in slot order.
pub open spec fn spec_sweep_changes(g: Seq<TileType>) -> Seq<TileChange> {
    let list = spec_removed_list(g, SENTINEL_INDEX as int);
    Seq::new(list.len(), |k: int| TileChange {
        position: spec_vec_of_index(list[k] as int),
        tile: TileType::Empty(g[list[k] as int].spec_terrain()),
    })
}

/// The removed list holds exactly the swept slots below `i`, strictly
/// ascending.
proof fn lemma_removed_list_props(g: Seq<TileType>, i: int)
    requires
        i <= SENTINEL_INDEX,
    ensures
        forall|k: int|
            0 <= k < spec_removed_list(g, i).len() ==> (#[trigger] spec_removed_list(g, i)[k])
                < i,
        forall|k1: int, k2: int|
            0 <= k1 < k2 < spec_removed_list(g, i).len() ==> #[trigger] spec_removed_list(g, i)[k1]
                < #[trigger] spec_removed_list(g, i)[k2],
        forall|j: int|
            0 <= j < i ==> (spec_removed(g, j) <==> spec_removed_list(g, i).contains(
                (j as usize),
            )),
    decreases i,
{
    if i > 0 {
        lemma_removed_list_props(g, i - 1);
        let rest = spec_removed_list(g, i - 1);
        let list = spec_removed_list(g, i);
        assert forall|j: int| 0 <= j < i implies (spec_removed(g, j) <==> list.contains(
            (j as usize),
        )) by {
            if j < i - 1 {
                if rest.contains((j as usize)) {
                    let k = choose|k: int| 0 <= k < rest.len() && rest[k] == (j as usize);
                    assert(list[k] == (j as usize));
                } else if list.contains((j as usize)) {
                    let k = choose|k: int| 0 <= k < list.len() && list[k] == (j as usize);
                    assert(k < rest.len());
                    assert(rest[k] == (j as usize));
                }
            } else {
                if spec_removed(g, j) {
                    assert(list[list.len() - 1] == (j as usize));
                } else if list.contains((j as usize)) {
                    let k = choose|k: int| 0 <= k < list.len() && list[k] == (j as usize);
                    assert(k < rest.len());
                    assert(rest[k] == (j as usize));
                }
            }
        }
    }
}

/// A suffix of a walk is a walk from its own head with the same endpoint.
proof fn lemma_linked_suffix(
    owners: Seq<Option<Player>>,
    path: Seq<GridVec>,
    start: GridVec,
    player: Player,
    k: int,
)
    requires
        spec_linked(owners, path, start, player),
        0 <= k < path.len(),
    ensures
        spec_linked(owners, path.subrange(k, path.len() as int), path[k], player),
        path.subrange(k, path.len() as int).last() == path.last(),
{
    let tail = path.subrange(k, path.len() as int);
    assert forall|i: int| 1 <= i < tail.len() implies crate::reach::spec_owner_at(
        owners,
        (#[trigger] tail[i]).x as int,
        tail[i].y as int,
    ) == Some(player) by {
        assert(tail[i] == path[k + i]);
    }
    assert forall|i: int| 0 <= i < tail.len() - 1 implies crate::reach::spec_adjacent(
        #[trigger] tail[i],
        tail[i + 1],
    ) by {
        assert(tail[i] == path[k + i] && tail[i + 1] == path[k + i + 1]);
    }
}

/// A path that holds in `g` still holds after the sweep: every cell it
/// crosses is itself connected to the base it leads to, so the sweep keeps
/// each of them.
proof fn lemma_path_in_sweep(g: Seq<TileType>, path: Seq<GridVec>, start: GridVec, player: Player)
    requires
        g.len() == GRID_SIZE,
        g[SENTINEL_INDEX as int] == TileType::Empty(Terrain::Plain),
        spec_is_path(spec_owners_of(g), spec_bases_of(g), path, start, player),
    ensures
        spec_is_path(
            spec_owners_of(spec_sweep(g)),
            spec_bases_of(spec_sweep(g)),
            path,
            start,
            player,
        ),
{
    let s = spec_sweep(g);
    let owners = spec_owners_of(g);
    let bases = spec_bases_of(g);

    // Every cell after the first keeps its tile: it is owned, and the walk's
    // suffix from it shows it connected to the base, so the sweep spares it.
    assert forall|k: int| 1 <= k < path.len() implies s[spec_index_of(
        (#[trigger] path[k]).x as int,
        path[k].y as int,
    )] == g[spec_index_of(path[k].x as int, path[k].y as int)] by {
        let c = path[k];
        let j = spec_index_of(c.x as int, c.y as int);
        assert(owners[j] == Some(player));
        assert(spec_in_bounds(c.x as int, c.y as int));
        if spec_removed(g, j) {
            lemma_linked_suffix(owners, path, start, player, k);
            let tail = path.subrange(k, path.len() as int);
            assert(spec_is_path(owners, bases, tail, c, player));
            assert(spec_connected_to_base(g, c, player));
            lemma_index_inverse(c);
            assert(spec_vec_of_index(j) == c);
            assert(false);
        }
    }

    // The final base cell keeps its tile: the sweep never touches a Base.
    let last = path.last();
    let lj = spec_index_of(last.x as int, last.y as int);
    assert(bases[lj] && owners[lj] == Some(player));
    assert(g[lj].spec_is_base_role());
    assert(!spec_removed(g, lj));
    assert(s[lj] == g[lj]);

    assert forall|i: int| 1 <= i < path.len() implies crate::reach::spec_owner_at(
        spec_owners_of(s),
        (#[trigger] path[i]).x as int,
        path[i].y as int,
    ) == Some(player) by {
        let j = spec_index_of(path[i].x as int, path[i].y as int);
        assert(s[j] == g[j]);
    }
}

/// After one sweep, every remaining owned Farm or ordinary Tile is still
/// connected to its owner's Base: a single pass over the unswept grid
/// already reaches the fixed point, because a cell kept for its path keeps
/// that whole path with it.
pub proof fn lemma_sweep_preserves(g: Seq<TileType>)
    requires
        g.len() == GRID_SIZE,
        g[SENTINEL_INDEX as int] == TileType::Empty(Terrain::Plain),
    ensures
        spec_all_connected(spec_sweep(g)),
{
    let s = spec_sweep(g);
    assert forall|i: int| 0 <= i < SENTINEL_INDEX implies !spec_removed(s, i) by {
        match s[i] {
            TileType::Occupied { player_tile, owner, .. } => {
                if player_tile == PlayerTile::Farm || player_tile == PlayerTile::Tile {
                    // The cell survived the sweep, so it was connected in `g`.
                    assert(s[i] == g[i]);
                    assert(!spec_removed(g, i));
                    let start = spec_vec_of_index(i);
                    assert(spec_connected_to_base(g, start, owner));
                    let path = choose|path: Seq<GridVec>|
                        spec_is_path(spec_owners_of(g), spec_bases_of(g), path, start, owner);
                    lemma_path_in_sweep(g, path, start, owner);
                    assert(spec_connected_to_base(s, start, owner));
                }
            },
            _ => {},
        }
    }
}

/// A grid whose owned cells are all connected is a fixed point of the
/// sweep.
pub proof fn lemma_sweep_fixed(g: Seq<TileType>)
    requires
        spec_all_connected(g),
    ensures
        spec_sweep(g) == g,
{
    assert(spec_sweep(g) =~= g);
}

/// The sweep never destroys a Base: every cell holding one keeps its
/// tile.
pub proof fn lemma_sweep_keeps_bases(g: Seq<TileType>, i: int)
    requires
        0 <= i < g.len(),
        g[i].spec_is_base_role(),
    ensures
        spec_sweep(g)[i] == g[i],
{
}

/// A grid whose owned cells are all connected yields an empty sweep
/// change list.
pub proof fn lemma_sweep_changes_empty(g: Seq<TileType>)
    requires
        spec_all_connected(g),
    ensures
        spec_sweep_changes(g).len() == 0,
{
    lemma_removed_list_props(g, SENTINEL_INDEX as int);
    let list = spec_removed_list(g, SENTINEL_INDEX as int);
    if list.len() > 0 {
        let first = list[0];
        assert(list.contains(first));
        assert(spec_removed(g, first as int));
        assert(false);
    }
}

/// Sweeping twice is the same as sweeping once: the first sweep leaves
/// every kept cell connected, so a second sweep finds nothing to remove.
pub proof fn lemma_sweep_idempotent(g: Seq<TileType>)
    requires
        g.len() == GRID_SIZE,
        g[SENTINEL_INDEX as int] == TileType::Empty(Terrain::Plain),
    ensures
        spec_sweep(spec_sweep(g)) == spec_sweep(g),
{
    lemma_sweep_preserves(g);
    lemma_sweep_fixed(spec_sweep(g));
}

impl TileGrid {
    /// The disconnection sweep: clear every owned Farm or ordinary Tile
    /// with no path of its owner's cells to that owner's Base, and report
    /// the cleared cells as diff records in slot order.
    ///
    /// The sweep reaches a fixed point: afterwards every remaining owned
    /// cell is connected, so a second run reports no changes.
    pub fn update(&mut self) -> (changes: Vec<TileChange>)
        requires
            old(self).wf(),
        ensures
            final(self).wf(),
            final(self).grid@ == spec_sweep(old(self).grid@),
            changes@ == spec_sweep_changes(old(self).grid@),
            spec_all_connected(final(self).grid@),
            spec_sweep_changes(final(self).grid@).len() == 0,
            spec_all_connected(old(self).grid@) ==> final(self).grid@ == old(self).grid@
                && changes@.len() == 0,
    {
        let ghost g0 = self.grid@;
        proof {
            lemma_removed_list_props(g0, SENTINEL_INDEX as int);
        }

        let mut to_remove: Vec<usize> = Vec::new();
        let mut i: usize = 0;
        while i < SENTINEL_INDEX
            invariant
                self.wf(),
                self.grid@ == g0,
                i <= SENTINEL_INDEX,
                to_remove@ == spec_removed_list(g0, i as int),
            decreases SENTINEL_INDEX - i,
        {
            let tile = self.grid[i];
            if tile.is_farm() || tile.is_tile() {
                match tile.owner() {
                    Some(owner) => {
                        let pos = get_vec_from_index(i);
                        if !self.is_connected_to_base(pos, owner) {
                            to_remove.push(i);
                        }
                    },
                    None => {},
                }
            }
            i = i + 1;
        }
        let ghost list = spec_removed_list(g0, SENTINEL_INDEX as int);
        proof {
            assert(to_remove@ == list);
        }

        let mut changes: Vec<TileChange> = Vec::new();
        let mut k: usize = 0;
        while k < to_remove.len()
            invariant
                to_remove@ == list,
                list == spec_removed_list(g0, SENTINEL_INDEX as int),
                g0.len() == GRID_SIZE,
                k <= list.len(),
                self.grid@.len() == GRID_SIZE,
                forall|k1: int|
                    0 <= k1 < list.len() ==> 0 <= (#[trigger] list[k1]) < SENTINEL_INDEX,
                forall|k1: int, k2: int|
                    0 <= k1 < k2 < list.len() ==> #[trigger] list[k1] < #[trigger] list[k2],
                forall|j: int|
                    0 <= j < GRID_SIZE ==> self.grid@[j] == (
                    if exists|k1: int| 0 <= k1 < k && list[k1] == (j as usize) {
                        TileType::Empty(g0[j].spec_terrain())
                    } else {
                        g0[j]
                    }),
                changes@.len() == k,
                forall|k1: int|
                    0 <= k1 < k ==> #[trigger] changes@[k1] == (TileChange {
                        position: spec_vec_of_index(list[k1] as int),
                        tile: TileType::Empty(g0[list[k1] as int].spec_terrain()),
                    }),
            decreases to_remove.len() - k,
        {
            let idx = to_remove[k];
            proof {
                // Slots in the list are strictly ascending, so this one has
                // not been cleared yet and still holds its pre-sweep tile.
                assert(forall|k1: int| 0 <= k1 < k ==> #[trigger] list[k1] < list[k as int]);
                assert(self.grid@[idx as int] == g0[idx as int]);
            }
            let tile = self.grid[idx];
            let terrain = tile.terrain();
            let cleared = TileType::Empty(terrain);
            self.grid.set(idx, cleared);
            changes.push(TileChange { position: get_vec_from_index(idx), tile: cleared });
            k = k + 1;
        }

        proof {
            assert forall|j: int| 0 <= j < GRID_SIZE implies self.grid@[j] == spec_sweep(g0)[j] by {
                if 0 <= j < SENTINEL_INDEX && spec_removed(g0, j) {
                    assert(list.contains((j as usize)));
                    let k1 = choose|k1: int| 0 <= k1 < list.len() && list[k1] == (j as usize);
                    assert(exists|k2: int| 0 <= k2 < list.len() && list[k2] == (j as usize));
                } else {
                    if exists|k1: int| 0 <= k1 < list.len() && #[trigger] list[k1] == (j as usize) {
                        let k1 = choose|k1: int|
                            0 <= k1 < list.len() && #[trigger] list[k1] == (j as usize);
                        assert(list.contains((j as usize)));
                        assert(j < SENTINEL_INDEX && spec_removed(g0, j));
                        assert(false);
                    }
                }
            }
            assert(self.grid@ =~= spec_sweep(g0));
            assert(changes@ =~= spec_sweep_changes(g0));
            lemma_sweep_preserves(g0);
            lemma_sweep_changes_empty(self.grid@);
            if spec_all_connected(g0) {
                lemma_sweep_fixed(g0);
                if list.len() > 0 {
                    let first = list[0];
                    assert(list.contains(first));
                    assert(spec_removed(g0, first as int));
                    assert(false);
                }
            }
        }
        changes
    }
}

} // verus!
