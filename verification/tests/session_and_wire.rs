use territory::client::{GridMouse, MenuOption, WinCounter};
use territory::events::{ClientState, TileEvent};
use territory::grid::GridVec;
use territory::input::{GameInput, KeyCode, MouseButton};
use territory::player::Player;
use territory::session::farms::FarmCounter;
use territory::session::grid::TileGrid;
use territory::session::input::GameInput as PackedInput;
use territory::session::tiles::{Health, Level, Owned, Tile, TileType};
use territory::session::turn::TurnCounter;
use territory::session::tile_event::TileEvent as SessionTileEvent;
use territory::session::utils::{get_attack_targets, get_vec_from_index, resolve_click};
use territory::tiles::{PlayerTile, Terrain};

#[test]
fn attack_shapes_match_the_level() {
    let origin = Some(GridVec::new(0, 0));
    // Level 1 strikes the clicked cell alone.
    assert_eq!(get_attack_targets(origin, GridVec::new(1, 0), 1), vec![GridVec::new(1, 0)]);
    assert_eq!(get_attack_targets(origin, GridVec::new(0, -1), 1), vec![GridVec::new(0, -1)]);
    // Level 2 pierces two cells along the axis, from either click.
    assert_eq!(
        get_attack_targets(origin, GridVec::new(2, 0), 2),
        vec![GridVec::new(1, 0), GridVec::new(2, 0)]
    );
    assert_eq!(
        get_attack_targets(origin, GridVec::new(0, -1), 2),
        vec![GridVec::new(0, -1), GridVec::new(0, -2)]
    );
    // Level 3 fans across the three cells one step ahead.
    assert_eq!(
        get_attack_targets(origin, GridVec::new(0, 1), 3),
        vec![GridVec::new(0, 1), GridVec::new(1, 1), GridVec::new(-1, 1)]
    );
    assert_eq!(
        get_attack_targets(origin, GridVec::new(-1, 0), 3),
        vec![GridVec::new(-1, 0), GridVec::new(-1, 1), GridVec::new(-1, -1)]
    );
}

#[test]
fn attack_shapes_reject_everything_else() {
    let origin = Some(GridVec::new(0, 0));
    let empty: Vec<GridVec> = vec![];
    // Diagonals.
    assert_eq!(get_attack_targets(origin, GridVec::new(1, 1), 1), empty);
    assert_eq!(get_attack_targets(origin, GridVec::new(-1, 1), 2), empty);
    // Out-of-range multiples.
    assert_eq!(get_attack_targets(origin, GridVec::new(2, 0), 1), empty);
    assert_eq!(get_attack_targets(origin, GridVec::new(3, 0), 2), empty);
    assert_eq!(get_attack_targets(origin, GridVec::new(0, 2), 3), empty);
    // Wrong levels.
    assert_eq!(get_attack_targets(origin, GridVec::new(1, 0), 0), empty);
    assert_eq!(get_attack_targets(origin, GridVec::new(1, 0), 4), empty);
    // No origin at all.
    assert_eq!(get_attack_targets(None, GridVec::new(1, 0), 1), empty);
}

#[test]
fn layout_coordinates_run_row_major() {
    let v = get_vec_from_index(0);
    assert_eq!((v.x, v.y), (0, 0));
    let v = get_vec_from_index(17);
    assert_eq!((v.x, v.y), (1, 1));
    let v = get_vec_from_index(127);
    assert_eq!((v.x, v.y), (15, 7));
}

#[test]
fn components_level_and_health() {
    let mut level = Level(1);
    level.up();
    level.up();
    assert_eq!(level.0, 3);

    let mut health = Health(2);
    assert_eq!(health.damage(), 1);
    assert_eq!(health.damage(), 0);
    assert_eq!(health.damage(), 0);
    assert_eq!(health.0, 0);
}

#[test]
fn component_tile_kinds() {
    let mut tile = TileType::Empty(Terrain::Mountain);
    assert!(!tile.is_empty());
    assert_eq!(tile.terrain(), Terrain::Mountain);
    tile.set_player_tile(PlayerTile::Farm);
    assert!(tile.is_farm());
    assert!(!tile.is_base());
    assert_eq!(tile.player_tile(), Some(PlayerTile::Farm));
    assert_eq!(tile.terrain(), Terrain::Mountain);
    tile.empty();
    assert_eq!(tile, TileType::Empty(Terrain::Mountain));

    let owned = Owned(Some(Player::Blue));
    assert_eq!(owned.0, Some(Player::Blue));
    let wrapped = Tile(TileType::Occupied(PlayerTile::Base, Terrain::Plain));
    assert!(wrapped.0.is_base());
}

#[test]
fn turn_counter_alternates() {
    let mut turn = TurnCounter::new();
    assert_eq!(turn.player(), Player::Red);
    turn.next();
    assert_eq!(turn.player(), Player::Blue);
    turn.next();
    assert_eq!(turn.player(), Player::Red);
}

#[test]
fn session_economy_subtracts_spent_points() {
    let mut counter = FarmCounter::default();
    assert_eq!(counter.available_farms(Player::Red), 0);
    counter.counts = [5, 3];
    counter.points = [2, 0];
    assert_eq!(counter.available_farms(Player::Red), 3);
    assert_eq!(counter.available_farms(Player::Blue), 3);
}

#[test]
fn packed_input_round_trips_buttons_and_keys() {
    let none = PackedInput::from_pressed(false, false, false, false, false, false);
    assert!(none.get_buttons().is_empty());
    assert!(none.get_keys().is_empty());

    let clicks = PackedInput::from_pressed(true, true, false, false, false, false);
    assert_eq!(clicks.get_buttons(), vec![MouseButton::Right, MouseButton::Left]);
    assert!(clicks.get_keys().is_empty());

    let keys = PackedInput::from_pressed(false, false, true, false, true, true);
    assert!(keys.get_buttons().is_empty());
    assert_eq!(keys.get_keys(), vec![KeyCode::Space, KeyCode::M, KeyCode::W]);

    let ret = PackedInput::from_pressed(false, false, false, true, false, false);
    assert_eq!(ret.get_keys(), vec![KeyCode::Return]);
}

#[test]
fn intents_route_by_client_phase() {
    let pos = GridVec::new(2, 1);
    assert_eq!(
        TileEvent::from_input(7, pos, GameInput::Mouse(MouseButton::Left), &ClientState::Terrain),
        TileEvent::TerrainAction {
            client_id: 7,
            position: pos,
            action: GameInput::Mouse(MouseButton::Left),
        }
    );
    assert_eq!(
        TileEvent::from_input(7, pos, GameInput::Mouse(MouseButton::Left), &ClientState::Game),
        TileEvent::TileAction {
            client_id: 7,
            position: pos,
            action: GameInput::Mouse(MouseButton::Left),
        }
    );
    assert_eq!(
        TileEvent::from_input(7, pos, GameInput::Keyboard(KeyCode::Space), &ClientState::Game),
        TileEvent::ToggleSelect { client_id: 7, position: pos }
    );
    assert_eq!(
        TileEvent::from_input(7, pos, GameInput::Keyboard(KeyCode::M), &ClientState::Game),
        TileEvent::TerrainAction {
            client_id: 7,
            position: pos,
            action: GameInput::Keyboard(KeyCode::M),
        }
    );
    assert!(TileEvent::new_action(7, &MouseButton::Right, pos).is_none() == false);
    assert!(TileEvent::Idle.is_none());
}

#[test]
fn win_counter_tallies_per_player() {
    let mut wins = WinCounter::default();
    assert_eq!(wins.get(Player::Red), 0);
    wins.increment(Player::Red, 1);
    wins.increment(Player::Red, 2);
    wins.increment(Player::Blue, 1);
    assert_eq!(wins.get(Player::Red), 3);
    assert_eq!(wins.get(Player::Blue), 1);
}

#[test]
fn grid_mouse_converts_pixels_to_cells() {
    let mut mouse = GridMouse::default();
    assert_eq!(mouse.grid_position(), GridVec::new(0, 0));
    mouse.set_position(GridVec::new(100, -50));
    assert_eq!(mouse.grid_position(), GridVec::new(2, -1));
}

#[test]
fn menu_offers_the_three_cell_actions() {
    let options = [MenuOption::Upgrade, MenuOption::ConvertFarm, MenuOption::Attack];
    assert_eq!(options.len(), 3);
    assert!(matches!(options[0], MenuOption::Upgrade));
}

#[test]
fn clicks_resolve_by_cell_and_economy() {
    let own_tile = TileType::Occupied(PlayerTile::Tile, Terrain::Plain);
    let own_farm = TileType::Occupied(PlayerTile::Farm, Terrain::Plain);
    let here = GridVec::new(2, 2);
    let ahead = vec![GridVec::new(3, 2)];

    // A right click on one's own Tile converts it through the attack path.
    let event = resolve_click(
        MouseButton::Right,
        own_tile,
        Some(Player::Red),
        Player::Red,
        1,
        ahead.clone(),
        here,
    );
    match event {
        Some(SessionTileEvent::Attack { targets, player_tile }) => {
            assert_eq!(player_tile, PlayerTile::Farm);
            assert_eq!(targets, ahead);
        },
        other => panic!("expected a farm conversion, got {:?}", other),
    }

    // A left click on one's own Farm upgrades for free, adding no hp.
    let event = resolve_click(
        MouseButton::Left,
        own_farm,
        Some(Player::Red),
        Player::Red,
        0,
        vec![],
        here,
    );
    assert_eq!(event, Some(SessionTileEvent::Upgrade { target: here, hp: 0 }));
    let upgrade = event.unwrap();
    assert_eq!(upgrade.unwrap_upgrade(), Some((&here, 0)));
    assert_eq!(upgrade.unwrap_attack(), None);

    // A left click elsewhere attacks only if the whole set is affordable.
    let empty_cell = TileType::Empty(Terrain::Plain);
    let event = resolve_click(
        MouseButton::Left,
        empty_cell,
        None,
        Player::Red,
        1,
        ahead.clone(),
        GridVec::new(3, 2),
    );
    match event {
        Some(SessionTileEvent::Attack { targets, player_tile }) => {
            assert_eq!(player_tile, PlayerTile::Tile);
            assert_eq!(targets, ahead);
        },
        other => panic!("expected an attack, got {:?}", other),
    }
    let rejected = resolve_click(
        MouseButton::Left,
        empty_cell,
        None,
        Player::Red,
        0,
        ahead,
        GridVec::new(3, 2),
    );
    assert_eq!(rejected, None);
}

#[test]
fn session_mirror_follows_captures() {
    let mut grid = TileGrid::default();
    grid.make_base(Player::Blue);
    grid.set_owner(GridVec::new(6, 3), Some(Player::Blue));
    grid.set_owner(GridVec::new(5, 3), Some(Player::Blue));
    assert!(grid.is_connected_to_base(GridVec::new(5, 3), Player::Blue));
    // Losing the bridge cell cuts the farther one off.
    grid.set_owner(GridVec::new(6, 3), None);
    assert!(!grid.is_connected_to_base(GridVec::new(5, 3), Player::Blue));
}
