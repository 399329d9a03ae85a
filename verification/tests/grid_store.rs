use territory::consts::{GRID_SIZE, SENTINEL_INDEX};
use territory::grid::{get_vec_from_index, GridVec, TileGrid};
use territory::player::Player;
use territory::tiles::{PlayerTile, Terrain, TileType};

fn red_tile(level: usize, hp: usize) -> TileType {
    TileType::Occupied {
        player_tile: PlayerTile::Tile,
        terrain: Terrain::Plain,
        owner: Player::Red,
        level,
        hp,
    }
}

fn blue_tile(level: usize, hp: usize) -> TileType {
    TileType::Occupied {
        player_tile: PlayerTile::Tile,
        terrain: Terrain::Plain,
        owner: Player::Blue,
        level,
        hp,
    }
}

#[test]
fn index_transform_is_inverse_consistent() {
    let samples = vec![
        GridVec::new(-8, -4),
        GridVec::new(7, 3),
        GridVec::new(0, 0),
        GridVec::new(3, -2),
        GridVec::new(-1, 3),
    ];
    for p in samples {
        let idx = TileGrid::get_index(p);
        assert!(idx < SENTINEL_INDEX);
        assert_eq!(get_vec_from_index(idx), p);
    }
}

#[test]
fn index_transform_is_injective_on_the_board() {
    let a = TileGrid::get_index(GridVec::new(2, 1));
    let b = TileGrid::get_index(GridVec::new(1, 2));
    let c = TileGrid::get_index(GridVec::new(2, 2));
    assert_ne!(a, b);
    assert_ne!(a, c);
    assert_ne!(b, c);
}

#[test]
fn out_of_bounds_maps_to_the_sentinel() {
    assert_eq!(TileGrid::get_index(GridVec::new(8, 0)), SENTINEL_INDEX);
    assert_eq!(TileGrid::get_index(GridVec::new(-9, 0)), SENTINEL_INDEX);
    assert_eq!(TileGrid::get_index(GridVec::new(0, 4)), SENTINEL_INDEX);
    assert_eq!(TileGrid::get_index(GridVec::new(0, -5)), SENTINEL_INDEX);
    assert_eq!(GRID_SIZE, SENTINEL_INDEX + 1);
}

#[test]
fn writes_through_the_sentinel_are_no_ops() {
    let mut grid = TileGrid::default();
    let before = grid.clone();
    grid.set_tile(GridVec::new(99, 99), red_tile(5, 5));
    grid.upgrade(GridVec::new(-9, 0));
    grid.capture(GridVec::new(0, 40), Player::Red);
    assert_eq!(grid, before);
    assert_eq!(grid.get_tile(GridVec::new(99, 99)), TileType::Empty(Terrain::Plain));
}

#[test]
fn default_grid_places_both_bases() {
    let grid = TileGrid::default();
    assert_eq!(
        grid.get_tile(GridVec::new(-8, -4)),
        TileType::Occupied {
            player_tile: PlayerTile::Base,
            terrain: Terrain::Plain,
            owner: Player::Red,
            level: 1,
            hp: 2,
        }
    );
    assert_eq!(
        grid.get_tile(GridVec::new(7, 3)),
        TileType::Occupied {
            player_tile: PlayerTile::Base,
            terrain: Terrain::Plain,
            owner: Player::Blue,
            level: 1,
            hp: 2,
        }
    );
    assert_eq!(grid.get_tile(GridVec::new(0, 0)), TileType::Empty(Terrain::Plain));
}

#[test]
fn upgrade_raises_level_and_hp_by_one_and_skips_empty() {
    let mut grid = TileGrid::default();
    grid.set_tile(GridVec::new(0, 0), red_tile(2, 3));
    grid.upgrade(GridVec::new(0, 0));
    assert_eq!(grid.get_tile(GridVec::new(0, 0)), red_tile(3, 4));
    let before = grid.clone();
    grid.upgrade(GridVec::new(1, 1));
    assert_eq!(grid, before);
}

#[test]
fn damage_saturates_at_zero() {
    let mut grid = TileGrid::default();
    grid.set_tile(GridVec::new(0, 0), red_tile(1, 2));
    assert_eq!(grid.damage(GridVec::new(0, 0), 1), 1);
    assert_eq!(grid.damage(GridVec::new(0, 0), 5), 0);
    assert_eq!(grid.get_tile(GridVec::new(0, 0)), red_tile(1, 0));
    assert_eq!(grid.damage(GridVec::new(2, 2), 3), 0);
}

#[test]
fn capture_resets_level_and_takes_health_from_terrain() {
    let mut grid = TileGrid::default();
    grid.set_tile(
        GridVec::new(0, 0),
        TileType::Occupied {
            player_tile: PlayerTile::Farm,
            terrain: Terrain::Mountain,
            owner: Player::Blue,
            level: 7,
            hp: 9,
        },
    );
    grid.capture(GridVec::new(0, 0), Player::Red);
    assert_eq!(
        grid.get_tile(GridVec::new(0, 0)),
        TileType::Occupied {
            player_tile: PlayerTile::Tile,
            terrain: Terrain::Mountain,
            owner: Player::Red,
            level: 1,
            hp: 2,
        }
    );
    grid.set_tile(GridVec::new(1, 0), TileType::Empty(Terrain::Water));
    grid.capture(GridVec::new(1, 0), Player::Blue);
    assert_eq!(
        grid.get_tile(GridVec::new(1, 0)),
        TileType::Occupied {
            player_tile: PlayerTile::Tile,
            terrain: Terrain::Water,
            owner: Player::Blue,
            level: 1,
            hp: 0,
        }
    );
}

#[test]
fn terrain_is_preserved_when_a_cell_empties() {
    let mut grid = TileGrid::default();
    grid.set_tile(GridVec::new(0, 0), TileType::Empty(Terrain::Mountain));
    grid.capture(GridVec::new(0, 0), Player::Red);
    grid.empty(GridVec::new(0, 0));
    assert_eq!(grid.get_tile(GridVec::new(0, 0)), TileType::Empty(Terrain::Mountain));
}

#[test]
fn connectivity_follows_owned_chains_only() {
    let mut grid = TileGrid::default();
    grid.set_tile(GridVec::new(-7, -4), red_tile(1, 1));
    grid.set_tile(GridVec::new(-6, -4), red_tile(1, 1));
    assert!(grid.is_connected_to_base(GridVec::new(-6, -4), Player::Red));
    assert!(!grid.is_connected_to_base(GridVec::new(-6, -4), Player::Blue));
    // A gap breaks the chain.
    assert!(!grid.is_connected_to_base(GridVec::new(-4, -4), Player::Red));
    // An enemy cell does not bridge it.
    grid.set_tile(GridVec::new(-5, -4), blue_tile(1, 1));
    assert!(!grid.is_connected_to_base(GridVec::new(-5, -4), Player::Blue));
    // The base itself is always connected.
    assert!(grid.is_connected_to_base(GridVec::new(-8, -4), Player::Red));
}

#[test]
fn sweep_clears_disconnected_cells_and_reports_them() {
    let mut grid = TileGrid::default();
    grid.set_tile(GridVec::new(-7, -4), red_tile(1, 1));
    grid.set_tile(GridVec::new(0, 0), red_tile(2, 2));
    grid.set_tile(GridVec::new(1, 0), TileType::Empty(Terrain::Mountain));
    grid.capture(GridVec::new(1, 0), Player::Red);
    let changes = grid.update();
    assert_eq!(changes.len(), 2);
    assert_eq!(changes[0].position, GridVec::new(0, 0));
    assert_eq!(changes[0].tile, TileType::Empty(Terrain::Plain));
    assert_eq!(changes[1].position, GridVec::new(1, 0));
    assert_eq!(changes[1].tile, TileType::Empty(Terrain::Mountain));
    assert_eq!(grid.get_tile(GridVec::new(-7, -4)), red_tile(1, 1));
    assert_eq!(grid.get_tile(GridVec::new(0, 0)), TileType::Empty(Terrain::Plain));
    assert_eq!(grid.get_tile(GridVec::new(1, 0)), TileType::Empty(Terrain::Mountain));
}

#[test]
fn sweep_is_idempotent() {
    let mut grid = TileGrid::default();
    grid.set_tile(GridVec::new(0, 0), red_tile(1, 1));
    grid.set_tile(GridVec::new(0, 1), red_tile(1, 1));
    grid.set_tile(GridVec::new(5, 0), blue_tile(3, 3));
    let first = grid.update();
    assert_eq!(first.len(), 3);
    let snapshot = grid.clone();
    let second = grid.update();
    assert_eq!(second.len(), 0);
    assert_eq!(grid, snapshot);
}

#[test]
fn check_win_counts_non_base_territory() {
    let mut grid = TileGrid::default();
    // Bases alone do not keep a player in the game.
    assert_eq!(grid.check_win(), [true, true]);
    grid.set_tile(GridVec::new(-7, -4), red_tile(1, 1));
    assert_eq!(grid.check_win(), [false, true]);
    grid.set_tile(GridVec::new(6, 3), blue_tile(1, 1));
    assert_eq!(grid.check_win(), [false, false]);
}
