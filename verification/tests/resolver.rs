use territory::events::{ClientEvent, TileChange, TileEvent};
use territory::grid::GridVec;
use territory::input::{GameInput, KeyCode, MouseButton};
use territory::player::Player;
use territory::state::{GameAction, GamePhase, GameState};
use territory::tiles::{PlayerTile, Terrain, TileType};

const RED_ID: u64 = 1;
const BLUE_ID: u64 = 2;

fn fresh_state() -> GameState {
    let mut state = GameState::new();
    state.set_player_id(RED_ID, Player::Red);
    state.set_player_id(BLUE_ID, Player::Blue);
    state
}

fn playing_state() -> GameState {
    let mut state = fresh_state();
    // Red passes the placement turn, Blue ends placement: the game begins
    // with Red to move.
    state.consume(&GameAction::EndTerrainPlacement);
    state.consume(&GameAction::EndTerrainPlacement);
    assert_eq!(state.game_phase, GamePhase::Game);
    assert_eq!(state.turn, Player::Red);
    state
}

fn occupied(role: PlayerTile, owner: Player, level: usize, hp: usize) -> TileType {
    TileType::Occupied { player_tile: role, terrain: Terrain::Plain, owner, level, hp }
}

fn left_click(client_id: u64, x: i32, y: i32) -> TileEvent {
    TileEvent::TileAction {
        client_id,
        position: GridVec::new(x, y),
        action: GameInput::Mouse(MouseButton::Left),
    }
}

fn right_click(client_id: u64, x: i32, y: i32) -> TileEvent {
    TileEvent::TileAction {
        client_id,
        position: GridVec::new(x, y),
        action: GameInput::Mouse(MouseButton::Right),
    }
}

#[test]
fn scenario_terrain_placement_click() {
    let mut state = fresh_state();
    assert_eq!(state.game_phase, GamePhase::TerrainPlacement);
    assert_eq!(state.terrain_controller.placement_mode, Terrain::Mountain);

    let event = TileEvent::TerrainAction {
        client_id: RED_ID,
        position: GridVec::new(0, 0),
        action: GameInput::Mouse(MouseButton::Left),
    };
    let action = state.get_action(&event).expect("placement click validates");
    assert_eq!(action, GameAction::MakeTerrain(GridVec::new(0, 0), Terrain::Mountain));

    let events = state.consume(&action);
    assert_eq!(state.terrain_controller.mountain_count, [1, 0]);
    assert_eq!(state.turn, Player::Red);
    assert_eq!(
        events,
        vec![ClientEvent::TileChanges(vec![TileChange {
            position: GridVec::new(0, 0),
            tile: TileType::Empty(Terrain::Mountain),
        }])]
    );
}

#[test]
fn scenario_unselected_click_is_a_single_target_attack() {
    let mut state = playing_state();
    // Red owns a level-2 Tile beside its base, and clicks the empty cell
    // one step further along the row.
    state.grid.set_tile(GridVec::new(-7, -4), occupied(PlayerTile::Tile, Player::Red, 2, 3));
    state.farm_counter.update(&state.grid);

    let action = state.get_action(&left_click(RED_ID, -6, -4)).expect("attack validates");
    assert_eq!(action, GameAction::Attack(vec![GridVec::new(-6, -4)]));

    let events = state.consume(&action);
    let captured = occupied(PlayerTile::Tile, Player::Red, 1, 1);
    assert_eq!(state.grid.get_tile(GridVec::new(-6, -4)), captured);
    assert_eq!(state.turn, Player::Blue);
    assert_eq!(
        events,
        vec![
            ClientEvent::TileChanges(vec![TileChange {
                position: GridVec::new(-6, -4),
                tile: captured,
            }]),
            ClientEvent::Turn(Player::Blue),
            ClientEvent::Farms([4, 1]),
            ClientEvent::Deselect,
        ]
    );
}

#[test]
fn scenario_selected_pierce_needs_the_full_economy() {
    let mut state = playing_state();
    state.grid.set_tile(GridVec::new(-7, -4), occupied(PlayerTile::Tile, Player::Red, 2, 3));
    state.farm_counter.update(&state.grid);

    let select = state
        .get_action(&TileEvent::ToggleSelect { client_id: RED_ID, position: GridVec::new(-7, -4) })
        .expect("selection validates");
    assert_eq!(select, GameAction::Select(GridVec::new(-7, -4)));
    state.consume(&select);

    // Two cells straight ahead on the row: the level-2 pierce covers both.
    let action = state.get_action(&left_click(RED_ID, -5, -4)).expect("pierce validates");
    assert_eq!(
        action,
        GameAction::Attack(vec![GridVec::new(-6, -4), GridVec::new(-5, -4)])
    );

    // With less than two points available the whole attack is rejected and
    // neither cell changes.
    let mut poor = playing_state();
    poor.grid.set_tile(GridVec::new(-7, -4), occupied(PlayerTile::Tile, Player::Red, 2, 3));
    poor.farm_counter.update(&poor.grid);
    let select = poor
        .get_action(&TileEvent::ToggleSelect { client_id: RED_ID, position: GridVec::new(-7, -4) })
        .expect("selection validates");
    poor.consume(&select);
    poor.farm_counter.points = [2, 0];
    let before = poor.grid.clone();
    assert_eq!(poor.get_action(&left_click(RED_ID, -5, -4)), None);
    assert_eq!(poor.grid, before);
}

#[test]
fn scenario_capture_can_disconnect_transitively() {
    let mut state = playing_state();
    // Blue holds a chain from its base; Red also holds a safe cell so the
    // board keeps Red in the game.
    state.grid.set_tile(GridVec::new(-7, -4), occupied(PlayerTile::Tile, Player::Red, 1, 1));
    state.grid.set_tile(GridVec::new(6, 3), occupied(PlayerTile::Tile, Player::Blue, 1, 1));
    state.grid.set_tile(GridVec::new(5, 3), occupied(PlayerTile::Tile, Player::Blue, 1, 1));
    state.farm_counter.update(&state.grid);
    assert!(state.grid.is_connected_to_base(GridVec::new(5, 3), Player::Blue));

    // One resolved action: the hit captures (6, 3), and the sweep clears
    // both the captured cell (cut off from Red's base) and (5, 3), which
    // lost its only path to Blue's base.
    let events = state.consume(&GameAction::Attack(vec![GridVec::new(6, 3)]));
    assert_eq!(state.grid.get_tile(GridVec::new(6, 3)), TileType::Empty(Terrain::Plain));
    assert_eq!(state.grid.get_tile(GridVec::new(5, 3)), TileType::Empty(Terrain::Plain));
    match &events[0] {
        ClientEvent::TileChanges(changes) => {
            assert_eq!(changes.len(), 3);
            assert_eq!(changes[0].position, GridVec::new(6, 3));
            assert_eq!(changes[0].tile, occupied(PlayerTile::Tile, Player::Red, 1, 1));
            assert_eq!(changes[1].position, GridVec::new(5, 3));
            assert_eq!(changes[1].tile, TileType::Empty(Terrain::Plain));
            assert_eq!(changes[2].position, GridVec::new(6, 3));
            assert_eq!(changes[2].tile, TileType::Empty(Terrain::Plain));
        },
        other => panic!("expected tile changes, got {:?}", other),
    }
}

#[test]
fn scenario_losing_the_last_cell_eliminates() {
    let mut state = playing_state();
    state.grid.set_tile(GridVec::new(-7, -4), occupied(PlayerTile::Tile, Player::Red, 1, 1));
    state.grid.set_tile(GridVec::new(6, 3), occupied(PlayerTile::Tile, Player::Blue, 1, 1));
    state.farm_counter.update(&state.grid);
    assert_eq!(state.grid.check_win(), [false, false]);

    state.consume(&GameAction::Attack(vec![GridVec::new(6, 3)]));
    // Blue's last non-base cell is gone: the win check reports Blue
    // eliminated, so the match lifecycle crowns Red.
    assert_eq!(state.grid.check_win(), [false, true]);
}

#[test]
fn upgrade_spends_a_turn_and_raises_the_cell() {
    let mut state = playing_state();
    state.grid.set_tile(GridVec::new(-7, -4), occupied(PlayerTile::Tile, Player::Red, 1, 1));
    state.farm_counter.update(&state.grid);

    let action = state.get_action(&left_click(RED_ID, -7, -4)).expect("upgrade validates");
    assert_eq!(action, GameAction::Upgrade(GridVec::new(-7, -4)));
    let events = state.consume(&action);
    assert_eq!(
        state.grid.get_tile(GridVec::new(-7, -4)),
        occupied(PlayerTile::Tile, Player::Red, 2, 2)
    );
    assert_eq!(state.turn, Player::Blue);
    assert_eq!(events.len(), 4);
    assert_eq!(events[1], ClientEvent::Turn(Player::Blue));
    assert_eq!(events[2], ClientEvent::Farms([3, 1]));
}

#[test]
fn right_click_turns_an_owned_tile_into_a_farm() {
    let mut state = playing_state();
    state.grid.set_tile(GridVec::new(-7, -4), occupied(PlayerTile::Tile, Player::Red, 2, 3));
    state.farm_counter.update(&state.grid);

    let action = state.get_action(&right_click(RED_ID, -7, -4)).expect("farm validates");
    assert_eq!(action, GameAction::MakeFarm(GridVec::new(-7, -4)));
    state.consume(&action);
    assert_eq!(
        state.grid.get_tile(GridVec::new(-7, -4)),
        occupied(PlayerTile::Farm, Player::Red, 1, 1)
    );
    assert_eq!(state.turn, Player::Blue);
}

#[test]
fn a_farm_keeps_the_terrain_it_stands_on() {
    let mut state = playing_state();
    // A Tile captured on a mountain keeps the mountain under it; so must
    // the Farm it is converted into.
    state.grid.set_tile(
        GridVec::new(-7, -4),
        TileType::Occupied {
            player_tile: PlayerTile::Tile,
            terrain: Terrain::Mountain,
            owner: Player::Red,
            level: 2,
            hp: 3,
        },
    );
    state.farm_counter.update(&state.grid);

    let action = state.get_action(&right_click(RED_ID, -7, -4)).expect("farm validates");
    assert_eq!(action, GameAction::MakeFarm(GridVec::new(-7, -4)));
    let events = state.consume(&action);
    let farm = TileType::Occupied {
        player_tile: PlayerTile::Farm,
        terrain: Terrain::Mountain,
        owner: Player::Red,
        level: 1,
        hp: 1,
    };
    assert_eq!(state.grid.get_tile(GridVec::new(-7, -4)), farm);
    assert_eq!(
        events[0],
        ClientEvent::TileChanges(vec![TileChange { position: GridVec::new(-7, -4), tile: farm }])
    );
}

#[test]
fn erase_undoes_the_last_placed_type() {
    let mut state = fresh_state();
    // Red places one mountain, then switches to water mode.
    let place = TileEvent::TerrainAction {
        client_id: RED_ID,
        position: GridVec::new(0, 0),
        action: GameInput::Mouse(MouseButton::Left),
    };
    let action = state.get_action(&place).expect("placement validates");
    state.consume(&action);
    state.consume(&GameAction::SetTerrainMode(Terrain::Water));
    assert_eq!(state.terrain_controller.mountain_count, [1, 0]);

    // The erase undoes the mountain placement, not a water one.
    let erase = TileEvent::TerrainAction {
        client_id: RED_ID,
        position: GridVec::new(0, 0),
        action: GameInput::Mouse(MouseButton::Right),
    };
    let action = state.get_action(&erase).expect("erase validates");
    assert_eq!(action, GameAction::MakeTerrain(GridVec::new(0, 0), Terrain::Plain));
    state.consume(&action);
    assert_eq!(state.terrain_controller.mountain_count, [0, 0]);
    assert_eq!(state.terrain_controller.water_count, [0, 0]);

    // With nothing placed yet, an erase changes no counter at all.
    let mut untouched = fresh_state();
    let action = untouched.get_action(&erase).expect("erase validates");
    untouched.consume(&action);
    assert_eq!(untouched.terrain_controller.mountain_count, [0, 0]);
    assert_eq!(untouched.terrain_controller.water_count, [0, 0]);
}

#[test]
fn farms_upgrade_for_free_but_tiles_need_a_point() {
    let mut state = playing_state();
    state.grid.set_tile(GridVec::new(-7, -4), occupied(PlayerTile::Farm, Player::Red, 1, 1));
    state.farm_counter.update(&state.grid);
    state.farm_counter.points = [2, 0];
    // No point available, but a Farm still upgrades.
    let action = state.get_action(&left_click(RED_ID, -7, -4)).expect("farm upgrade validates");
    assert_eq!(action, GameAction::Upgrade(GridVec::new(-7, -4)));

    let mut broke = playing_state();
    broke.grid.set_tile(GridVec::new(-7, -4), occupied(PlayerTile::Tile, Player::Red, 1, 1));
    broke.farm_counter.update(&broke.grid);
    broke.farm_counter.points = [2, 0];
    // A Tile with nothing available upgrades no more, and with no
    // affordable target set the click resolves to nothing at all.
    assert_eq!(broke.get_action(&left_click(RED_ID, -7, -4)), None);
}

#[test]
fn rejected_intents_resolve_to_nothing() {
    let mut state = playing_state();
    state.grid.set_tile(GridVec::new(-7, -4), occupied(PlayerTile::Tile, Player::Red, 1, 1));
    state.farm_counter.update(&state.grid);

    // An unknown connection.
    assert_eq!(state.get_action(&left_click(99, -6, -4)), None);
    // The player whose turn it is not.
    assert_eq!(state.get_action(&left_click(BLUE_ID, -6, -4)), None);
    // An off-board click.
    assert_eq!(state.get_action(&left_click(RED_ID, 8, 0)), None);
    // A click with no owned neighbour to serve as origin.
    assert_eq!(state.get_action(&left_click(RED_ID, 5, 0)), None);
    // A terrain action outside the placement phase.
    let place = TileEvent::TerrainAction {
        client_id: RED_ID,
        position: GridVec::new(0, 0),
        action: GameInput::Mouse(MouseButton::Left),
    };
    assert_eq!(state.get_action(&place), None);
    // A tile action before the game began.
    let mut placing = fresh_state();
    placing.grid.set_tile(GridVec::new(-7, -4), occupied(PlayerTile::Tile, Player::Red, 1, 1));
    placing.farm_counter.update(&placing.grid);
    assert_eq!(placing.get_action(&left_click(RED_ID, -6, -4)), None);
}

#[test]
fn toggle_select_selects_and_deselects() {
    let mut state = playing_state();
    state.grid.set_tile(GridVec::new(-7, -4), occupied(PlayerTile::Tile, Player::Red, 2, 3));
    state.farm_counter.update(&state.grid);

    let toggle = TileEvent::ToggleSelect { client_id: RED_ID, position: GridVec::new(-7, -4) };
    let action = state.get_action(&toggle).expect("selection validates");
    assert_eq!(action, GameAction::Select(GridVec::new(-7, -4)));
    let events = state.consume(&action);
    assert_eq!(events, vec![ClientEvent::Select(GridVec::new(-7, -4))]);
    assert_eq!(state.attack_controller.selected, Some(GridVec::new(-7, -4)));
    assert_eq!(state.attack_controller.selected_level, Some(2));
    assert_eq!(state.turn, Player::Red);

    // With something selected the same toggle deselects, wherever it lands.
    let toggle_away = TileEvent::ToggleSelect { client_id: RED_ID, position: GridVec::new(3, 3) };
    let action = state.get_action(&toggle_away).expect("deselect validates");
    assert_eq!(action, GameAction::Deselect);
    let events = state.consume(&action);
    assert_eq!(events, vec![ClientEvent::Deselect]);
    assert_eq!(state.attack_controller.selected, None);

    // A base cannot be selected.
    let on_base = TileEvent::ToggleSelect { client_id: RED_ID, position: GridVec::new(-8, -4) };
    assert_eq!(state.get_action(&on_base), None);
}

#[test]
fn placement_keys_set_modes_and_finish() {
    let mut state = fresh_state();
    let key = |k: KeyCode| TileEvent::TerrainAction {
        client_id: RED_ID,
        position: GridVec::new(0, 0),
        action: GameInput::Keyboard(k),
    };
    assert_eq!(
        state.get_action(&key(KeyCode::W)),
        Some(GameAction::SetTerrainMode(Terrain::Water))
    );
    assert_eq!(
        state.get_action(&key(KeyCode::M)),
        Some(GameAction::SetTerrainMode(Terrain::Mountain))
    );
    assert_eq!(state.get_action(&key(KeyCode::Return)), Some(GameAction::EndTerrainPlacement));
    assert_eq!(state.get_action(&key(KeyCode::Space)), None);

    let events = state.consume(&GameAction::SetTerrainMode(Terrain::Water));
    assert_eq!(events, vec![ClientEvent::TerrainMode(Terrain::Water)]);
    assert_eq!(state.terrain_controller.placement_mode, Terrain::Water);

    // Red's end-signal only passes the turn; Blue's starts the game.
    let events = state.consume(&GameAction::EndTerrainPlacement);
    assert_eq!(events, vec![ClientEvent::Turn(Player::Blue)]);
    assert_eq!(state.game_phase, GamePhase::TerrainPlacement);
    let events = state.consume(&GameAction::EndTerrainPlacement);
    assert_eq!(events.len(), 3);
    assert_eq!(events[1], ClientEvent::Turn(Player::Red));
    assert_eq!(state.game_phase, GamePhase::Game);
}

#[test]
fn placement_caps_stop_the_fifth_mountain() {
    let mut state = fresh_state();
    for i in 0..5 {
        let event = TileEvent::TerrainAction {
            client_id: RED_ID,
            position: GridVec::new(i, 0),
            action: GameInput::Mouse(MouseButton::Left),
        };
        let action = state.get_action(&event).expect("below the cap");
        state.consume(&action);
    }
    assert_eq!(state.terrain_controller.mountain_count, [5, 0]);
    let event = TileEvent::TerrainAction {
        client_id: RED_ID,
        position: GridVec::new(5, 0),
        action: GameInput::Mouse(MouseButton::Left),
    };
    assert_eq!(state.get_action(&event), None);

    // A right click erases, freeing one placement again.
    let erase = TileEvent::TerrainAction {
        client_id: RED_ID,
        position: GridVec::new(0, 0),
        action: GameInput::Mouse(MouseButton::Right),
    };
    let action = state.get_action(&erase).expect("erase validates");
    assert_eq!(action, GameAction::MakeTerrain(GridVec::new(0, 0), Terrain::Plain));
    state.consume(&action);
    assert_eq!(state.terrain_controller.mountain_count, [4, 0]);
    assert_eq!(state.grid.get_tile(GridVec::new(0, 0)), TileType::Empty(Terrain::Plain));
}
