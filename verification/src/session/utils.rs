//! Free helpers of the peer-to-peer session: entity-layout coordinates and
//! the attack-shape computation from an optional origin.

use vstd::prelude::*;

use crate::consts::SENTINEL_INDEX;
use crate::grid::{spec_in_bounds, GridVec};
use crate::input::MouseButton;
use crate::player::Player;
use crate::session::tile_event::TileEvent;
use crate::session::tiles::TileType;
use crate::state::{spec_attack_shape, spec_attack_valid};
use crate::tiles::PlayerTile;

verus! {

/// The layout coordinate of backing slot `index`, counted from the
/// board's lower-left corner: `x = index % 16`, `y = index / 16`.  The
/// session build spawns its cell entities by this unshifted coordinate.
pub fn get_vec_from_index(index: usize) -> (r: GridVec)
    requires
        index < SENTINEL_INDEX,
    ensures
        r.x == index as int % 16,
        r.y == index as int / 16,
{
    GridVec { x: (index % 16) as i32, y: (index / 16) as i32 }
}

/// Whether the displacement from `origin` to `target` is one a unit of
/// `level` may attack along.
fn attack_is_valid(origin: GridVec, target: GridVec, level: usize) -> (r: bool)
    ensures
        r == spec_attack_valid(origin, target, level as int),
{
    let dx = target.x as i64 - origin.x as i64;
    let dy = target.y as i64 - origin.y as i64;
    let unit = (dx == 1 && dy == 0) || (dx == -1 && dy == 0) || (dx == 0 && dy == 1) || (dx == 0
        && dy == -1);
    let double = (dx == 2 && dy == 0) || (dx == -2 && dy == 0) || (dx == 0 && dy == 2) || (dx == 0
        && dy == -2);
    if level == 1 || level == 3 {
        unit
    } else if level == 2 {
        unit || double
    } else {
        false
    }
}

/// The target cells an attack strikes: nothing without an origin or for an
/// invalid displacement; otherwise the level's shape — the clicked cell,
/// a two-cell line, or a three-cell fan.
pub fn get_attack_targets(origin: Option<GridVec>, target: GridVec, level: usize) -> (r: Vec<
    GridVec,
>)
    requires
        origin matches Some(o) ==> spec_in_bounds(o.x as int, o.y as int),
    ensures
        r@ == (match origin {
            Some(o) => if spec_attack_valid(o, target, level as int) {
                spec_attack_shape(o, target, level as int)
            } else {
                Seq::empty()
            },
            None => Seq::empty(),
        }),
{
    let o = match origin {
        Some(o) => o,
        None => {
            let empty: Vec<GridVec> = Vec::new();
            return empty;
        },
    };
    if !attack_is_valid(o, target, level) {
        let empty: Vec<GridVec> = Vec::new();
        return empty;
    }

    let dx = if target.x > o.x {
        1
    } else if target.x < o.x {
        -1i32
    } else {
        0
    };
    let dy = if target.y > o.y {
        1
    } else if target.y < o.y {
        -1i32
    } else {
        0
    };

    let targets: Vec<GridVec> = if level == 2 {
        let first = GridVec { x: o.x + dx, y: o.y + dy };
        let second = GridVec { x: o.x + 2 * dx, y: o.y + 2 * dy };
        vec![first, second]
    } else if level == 3 {
        let ahead = GridVec { x: o.x + dx, y: o.y + dy };
        let right = GridVec { x: o.x + dx + dy, y: o.y + dy - dx };
        let left = GridVec { x: o.x + dx - dy, y: o.y + dy + dx };
        vec![ahead, right, left]
    } else {
        vec![target]
    };
    proof {
        assert(targets@ =~= spec_attack_shape(o, target, level as int));
    }
    targets
}

/// A right click on one's own Tile converts it: the attack machinery
/// carries the Farm role to the computed targets.
pub open spec fn spec_click_converts(
    tile: TileType,
    owner: Option<Player>,
    turn: Player,
    button: MouseButton,
) -> bool {
    &&& tile matches TileType::Occupied(PlayerTile::Tile, _)
    &&& owner == Some(turn)
    &&& button == MouseButton::Right
}

/// A left click on one's own Tile (with a point available) or Farm
/// (always) upgrades it.
pub open spec fn spec_click_upgrades(
    tile: TileType,
    owner: Option<Player>,
    turn: Player,
    button: MouseButton,
    available: int,
) -> bool {
    &&& ((tile matches TileType::Occupied(PlayerTile::Tile, _)) && available >= 1) || (
    tile matches TileType::Occupied(PlayerTile::Farm, _))
    &&& owner == Some(turn)
    &&& button == MouseButton::Left
}

/// Any other left click attacks, if the whole nonempty target set is
/// affordable.
pub open spec fn spec_click_attacks(button: MouseButton, available: int, targets: int) -> bool {
    &&& button == MouseButton::Left
    &&& available >= 1
    &&& available >= targets
    &&& targets > 0
}

/// Resolve one click of the session build into a cell event: the pure
/// decision of its input system, which reads the clicked cell's
/// components, the turn, the available economy and the precomputed attack
/// targets.
pub fn resolve_click(
    button: MouseButton,
    tile: TileType,
    owner: Option<Player>,
    turn: Player,
    available: usize,
    targets: Vec<GridVec>,
    position: GridVec,
) -> (r: Option<TileEvent>)
    ensures
        spec_click_converts(tile, owner, turn, button) ==> (r matches Some(
            TileEvent::Attack { targets: t, player_tile: PlayerTile::Farm },
        ) && t@ == targets@),
        !spec_click_converts(tile, owner, turn, button) && spec_click_upgrades(
            tile,
            owner,
            turn,
            button,
            available as int,
        ) ==> r == Some(
            TileEvent::Upgrade {
                target: position,
                hp: (if tile matches TileType::Occupied(PlayerTile::Tile, _) {
                    1usize
                } else {
                    0usize
                }),
            },
        ),
        !spec_click_converts(tile, owner, turn, button) && !spec_click_upgrades(
            tile,
            owner,
            turn,
            button,
            available as int,
        ) && spec_click_attacks(button, available as int, targets@.len() as int) ==> (r
            matches Some(TileEvent::Attack { targets: t, player_tile: PlayerTile::Tile }) && t@
            == targets@),
        !spec_click_converts(tile, owner, turn, button) && !spec_click_upgrades(
            tile,
            owner,
            turn,
            button,
            available as int,
        ) && !spec_click_attacks(button, available as int, targets@.len() as int) ==> r is None,
{
    let owner_is_turn = match owner {
        Some(p) => p == turn,
        None => false,
    };
    if tile.is_tile() && owner_is_turn && matches!(button, MouseButton::Right) {
        return Some(TileEvent::Attack { targets, player_tile: PlayerTile::Farm });
    }
    if ((tile.is_tile() && available >= 1) || tile.is_farm()) && owner_is_turn && matches!(
        button,
        MouseButton::Left,
    ) {
        let hp: usize = if tile.is_tile() {
            1
        } else {
            0
        };
        return Some(TileEvent::Upgrade { target: position, hp });
    }
    if matches!(button, MouseButton::Left) && available >= 1 && available >= targets.len()
        && targets.len() > 0 {
        return Some(TileEvent::Attack { targets, player_tile: PlayerTile::Tile });
    }
    None
}

} // verus!
