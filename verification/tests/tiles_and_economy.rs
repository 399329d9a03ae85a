use territory::farms::FarmCounter;
use territory::grid::{GridVec, TileGrid};
use territory::player::Player;
use territory::tiles::{PlayerTile, Terrain, TileType};

#[test]
fn terrain_sets_the_base_health() {
    assert_eq!(Terrain::Water.get_health(), 0);
    assert_eq!(Terrain::Plain.get_health(), 1);
    assert_eq!(Terrain::Mountain.get_health(), 2);
}

#[test]
fn players_alternate() {
    assert_eq!(Player::Red.other(), Player::Blue);
    assert_eq!(Player::Blue.other(), Player::Red);
    assert_eq!(Player::Red.other().other(), Player::Red);
    assert_eq!(Player::default(), Player::Red);
}

#[test]
fn tile_upgrade_and_damage_are_exact() {
    let mut tile = TileType::Occupied {
        player_tile: PlayerTile::Tile,
        terrain: Terrain::Mountain,
        owner: Player::Blue,
        level: 3,
        hp: 4,
    };
    tile.upgrade();
    assert_eq!(tile.level(), Some(4));
    assert_eq!(
        tile,
        TileType::Occupied {
            player_tile: PlayerTile::Tile,
            terrain: Terrain::Mountain,
            owner: Player::Blue,
            level: 4,
            hp: 5,
        }
    );
    assert_eq!(tile.damage(2), 3);
    assert_eq!(tile.damage(10), 0);
    assert_eq!(tile.damage(1), 0);

    let mut empty = TileType::Empty(Terrain::Water);
    empty.upgrade();
    assert_eq!(empty, TileType::Empty(Terrain::Water));
    assert_eq!(empty.damage(3), 0);
}

#[test]
fn with_owner_keeps_the_terrain() {
    let cell = TileType::Empty(Terrain::Mountain);
    assert_eq!(
        cell.with_owner(PlayerTile::Base, Player::Blue, 1, 2),
        TileType::Occupied {
            player_tile: PlayerTile::Base,
            terrain: Terrain::Mountain,
            owner: Player::Blue,
            level: 1,
            hp: 2,
        }
    );
}

#[test]
fn tile_predicates_name_the_role() {
    let farm = TileType::Occupied {
        player_tile: PlayerTile::Farm,
        terrain: Terrain::Plain,
        owner: Player::Red,
        level: 1,
        hp: 1,
    };
    assert!(farm.is_farm());
    assert!(!farm.is_tile());
    assert!(!farm.is_base(Player::Red));
    assert_eq!(farm.owner(), Some(Player::Red));
    assert_eq!(farm.level(), Some(1));
    assert_eq!(farm.player_tile(), Some(PlayerTile::Farm));

    let base = farm.with_owner(PlayerTile::Base, Player::Blue, 1, 2);
    assert!(base.is_base(Player::Blue));
    assert!(!base.is_base(Player::Red));

    assert!(TileType::Empty(Terrain::Plain).is_empty());
    assert!(!TileType::Empty(Terrain::Water).is_empty());
    assert_eq!(TileType::Empty(Terrain::Water).owner(), None);
}

#[test]
fn economy_rescan_counts_one_base_point_plus_levels() {
    let mut grid = TileGrid::default();
    grid.set_tile(
        GridVec::new(-7, -4),
        TileType::Occupied {
            player_tile: PlayerTile::Tile,
            terrain: Terrain::Plain,
            owner: Player::Red,
            level: 3,
            hp: 3,
        },
    );
    grid.set_tile(
        GridVec::new(-6, -4),
        TileType::Occupied {
            player_tile: PlayerTile::Farm,
            terrain: Terrain::Plain,
            owner: Player::Red,
            level: 2,
            hp: 1,
        },
    );
    grid.set_tile(
        GridVec::new(6, 3),
        TileType::Occupied {
            player_tile: PlayerTile::Tile,
            terrain: Terrain::Plain,
            owner: Player::Blue,
            level: 1,
            hp: 1,
        },
    );

    let mut counter = FarmCounter::default();
    counter.update(&grid);
    // One point for the base, plus the levels of every owned Farm and Tile;
    // the Base's own level is not added again.
    assert_eq!(counter.counts, [6, 2]);
    assert_eq!(counter.points, [0, 0]);
    assert_eq!(counter.available_farms(), [6, 2]);
}
