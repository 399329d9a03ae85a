//! The action resolver: validates a client intent into an action (pure) and
//! applies it to the authoritative state (mutating), producing the diff
//! events to broadcast.

use vstd::prelude::*;

use std::collections::HashMap;

use crate::consts::{GRID_SIZE, SENTINEL_INDEX};
use crate::events::{ClientEvent, ClientState, TileChange, TileEvent};
use crate::farms::{
    lemma_score_pos, lemma_score_sweep_le, lemma_score_upto_update, spec_contrib, spec_score,
    FarmCounter,
};
use crate::grid::{
    spec_any_connected, spec_captured, spec_in_bounds, spec_index_of, spec_set_tile, spec_sweep,
    spec_sweep_changes, GridVec, TileGrid,
};
use crate::input::{GameInput, KeyCode, MouseButton};
use crate::player::Player;
use crate::terrain::TerrainCounter;
use crate::tiles::{PlayerTile, Terrain, TileType};

verus! {

broadcast use vstd::std_specs::hash::group_hash_axioms;

/// The one-directional match phase: terrain placement first, then play.
#[derive(Copy, Clone, PartialEq, Eq, Structural, Debug, Hash)]
pub enum GamePhase {
    TerrainPlacement,
    Game,
}

impl Default for GamePhase {
    fn default() -> (r: GamePhase)
        ensures
            r == GamePhase::TerrainPlacement,
    {
        GamePhase::TerrainPlacement
    }
}

/// The optional attack origin a player has selected, with the level of the
/// selected unit: it supplies multi-cell attack shapes without restating
/// the origin on every click.
#[derive(Copy, Clone, PartialEq, Eq, Structural, Debug)]
pub struct AttackController {
    pub selected: Option<GridVec>,
    pub selected_level: Option<usize>,
}

impl AttackController {
    /// Both fields are set together, and a selected origin lies on the
    /// board.
    pub open spec fn wf(self) -> bool {
        &&& self.selected is Some <==> self.selected_level is Some
        &&& self.selected matches Some(p) ==> spec_in_bounds(p.x as int, p.y as int)
    }

    /// Record `position` as the attack origin with the selected unit's
    /// `level`.
    pub fn select(&mut self, position: GridVec, level: usize)
        requires
            spec_in_bounds(position.x as int, position.y as int),
        ensures
            *final(self) == (AttackController {
                selected: Some(position),
                selected_level: Some(level),
            }),
            final(self).wf(),
    {
        self.selected = Some(position);
        self.selected_level = Some(level);
    }

    /// Clear the selection.
    pub fn deselect(&mut self)
        ensures
            *final(self) == (AttackController { selected: None, selected_level: None }),
            final(self).wf(),
    {
        self.selected = None;
        self.selected_level = None;
    }
}

impl Default for AttackController {
    fn default() -> (r: AttackController)
        ensures
            r == (AttackController { selected: None, selected_level: None }),
            r.wf(),
    {
        AttackController { selected: None, selected_level: None }
    }
}

/// A validated action, ready to be applied.
#[derive(Clone, PartialEq, Eq, Debug)]
pub enum GameAction {
    /// Damage each target in order, capturing what falls.
    Attack(Vec<GridVec>),
    /// Turn an owned Tile into a level-1 Farm.
    MakeFarm(GridVec),
    /// Raise an owned cell's level and hp by one.
    Upgrade(GridVec),
    /// Select an attack origin.
    Select(GridVec),
    /// Write terrain during placement; plain erases.
    MakeTerrain(GridVec, Terrain),
    /// Switch the placement mode.
    SetTerrainMode(Terrain),
    /// Pass the placement turn; the second placer starts the game.
    EndTerrainPlacement,
    /// Clear the selection.
    Deselect,
}

/// A validated action with its target list as a mathematical sequence;
/// the value contracts about `GameAction` are stated over this view.
pub enum ActionView {
    Attack(Seq<GridVec>),
    MakeFarm(GridVec),
    Upgrade(GridVec),
    Select(GridVec),
    MakeTerrain(GridVec, Terrain),
    SetTerrainMode(Terrain),
    EndTerrainPlacement,
    Deselect,
}

/// The view of an action.
pub open spec fn spec_action_view(a: GameAction) -> ActionView {
    match a {
        GameAction::Attack(targets) => ActionView::Attack(targets@),
        GameAction::MakeFarm(p) => ActionView::MakeFarm(p),
        GameAction::Upgrade(p) => ActionView::Upgrade(p),
        GameAction::Select(p) => ActionView::Select(p),
        GameAction::MakeTerrain(p, t) => ActionView::MakeTerrain(p, t),
        GameAction::SetTerrainMode(t) => ActionView::SetTerrainMode(t),
        GameAction::EndTerrainPlacement => ActionView::EndTerrainPlacement,
        GameAction::Deselect => ActionView::Deselect,
    }
}

/// The view of an optional action.
pub open spec fn spec_action_option_view(r: Option<GameAction>) -> Option<ActionView> {
    match r {
        Some(a) => Some(spec_action_view(a)),
        None => None,
    }
}

/// A displacement of exactly one cell along one axis.
pub open spec fn spec_unit_cardinal(dx: int, dy: int) -> bool {
    ||| (dx == 1 && dy == 0)
    ||| (dx == -1 && dy == 0)
    ||| (dx == 0 && dy == 1)
    ||| (dx == 0 && dy == -1)
}

/// A displacement of exactly two cells along one axis.
pub open spec fn spec_double_cardinal(dx: int, dy: int) -> bool {
    ||| (dx == 2 && dy == 0)
    ||| (dx == -2 && dy == 0)
    ||| (dx == 0 && dy == 2)
    ||| (dx == 0 && dy == -2)
}

/// The per-level offset rule: levels 1 and 3 reach one cell along an axis,
/// level 2 also two cells along an axis, and no other level attacks.
pub open spec fn spec_attack_valid(origin: GridVec, target: GridVec, level: int) -> bool {
    let dx = target.x as int - origin.x as int;
    let dy = target.y as int - origin.y as int;
    if level == 1 || level == 3 {
        spec_unit_cardinal(dx, dy)
    } else if level == 2 {
        spec_unit_cardinal(dx, dy) || spec_double_cardinal(dx, dy)
    } else {
        false
    }
}

/// Whether the displacement from `origin` to `target` is one a unit of
/// `level` may attack along.
fn attack_is_valid(origin: GridVec, target: GridVec, level: usize) -> (r: bool)
    ensures
        r == spec_attack_valid(origin, target, level as int),
{
    let dx = target.x as i64 - origin.x as i64;
    let dy = target.y as i64 - origin.y as i64;
    let unit = (dx == 1 && dy == 0) || (dx == -1 && dy == 0) || (dx == 0 && dy == 1) || (dx == 0
        && dy == -1);
    let double = (dx == 2 && dy == 0) || (dx == -2 && dy == 0) || (dx == 0 && dy == 2) || (dx == 0
        && dy == -2);
    if level == 1 || level == 3 {
        unit
    } else if level == 2 {
        unit || double
    } else {
        false
    }
}

/// The unit direction of a valid attack displacement.
pub open spec fn spec_sign(d: int) -> int {
    if d > 0 {
        1
    } else if d < 0 {
        -1
    } else {
        0
    }
}

/// The cell `steps` unit steps from `origin` along the direction from
/// `origin` to `target`.
pub open spec fn spec_step_towards(origin: GridVec, target: GridVec, steps: int) -> GridVec {
    let dx = spec_sign(target.x as int - origin.x as int);
    let dy = spec_sign(target.y as int - origin.y as int);
    GridVec { x: (origin.x as int + steps * dx) as i32, y: (origin.y as int + steps * dy) as i32 }
}

/// The cell one step ahead of `origin` towards `target`, then one step to
/// the side: `perp` +1 rotates the direction a quarter turn one way, -1
/// the other.
pub open spec fn spec_step_fan(origin: GridVec, target: GridVec, perp: int) -> GridVec {
    let dx = spec_sign(target.x as int - origin.x as int);
    let dy = spec_sign(target.y as int - origin.y as int);
    GridVec {
        x: (origin.x as int + dx + perp * dy) as i32,
        y: (origin.y as int + dy - perp * dx) as i32,
    }
}

/// The all-or-nothing target list of a valid attack: level 2 pierces two
/// cells in a line, level 3 fans across the three cells one step ahead,
/// and any other valid level strikes the clicked cell alone.
pub open spec fn spec_attack_shape(origin: GridVec, target: GridVec, level: int) -> Seq<GridVec> {
    if level == 2 {
        seq![spec_step_towards(origin, target, 1), spec_step_towards(origin, target, 2)]
    } else if level == 3 {
        seq![
            spec_step_towards(origin, target, 1),
            spec_step_fan(origin, target, 1),
            spec_step_fan(origin, target, -1),
        ]
    } else {
        seq![target]
    }
}

/// The attack origin an intent implies: the explicit selection if one is
/// set, else any owned cell grid-adjacent to the clicked position.
pub open spec fn spec_attack_origin(s: GameState, position: GridVec) -> Option<GridVec> {
    if s.attack_controller.selected is Some {
        s.attack_controller.selected
    } else {
        spec_any_connected(s.grid.grid@, position, s.turn)
    }
}

/// The attack level an intent implies: the selected unit's level, or the
/// default single-target level when nothing is selected.
pub open spec fn spec_attack_level(s: GameState) -> usize {
    match s.attack_controller.selected_level {
        Some(level) => level,
        None => 1usize,
    }
}

/// The target list `get_targets` yields for an intent: only a left click
/// with an origin, a level and a valid displacement produces one.
pub open spec fn spec_targets(s: GameState, event: TileEvent) -> Option<Seq<GridVec>> {
    match event {
        TileEvent::TileAction { position, action: GameInput::Mouse(MouseButton::Left), .. } => {
            match spec_attack_origin(s, position) {
                Some(origin) => {
                    let level = spec_attack_level(s);
                    if spec_attack_valid(origin, position, level as int) {
                        Some(spec_attack_shape(origin, position, level as int))
                    } else {
                        None
                    }
                },
                None => None,
            }
        },
        _ => None,
    }
}

/// The authoritative state of one match.
pub struct GameState {
    /// Which connection plays which side.
    pub id_to_player: HashMap<u64, Player>,
    pub turn: Player,
    pub grid: TileGrid,
    pub attack_controller: AttackController,
    pub terrain_controller: TerrainCounter,
    pub farm_counter: FarmCounter,
    pub game_phase: GamePhase,
}

impl GameState {
    /// The pieces of the state keep their own invariants.
    pub open spec fn wf(self) -> bool {
        &&& self.grid.wf()
        &&& self.attack_controller.wf()
        &&& self.farm_counter.wf()
    }

    /// A fresh match: empty grid with both bases, Red to move, terrain
    /// placement ahead, nothing selected, nothing counted, nobody mapped.
    pub fn new() -> (r: GameState)
        ensures
            r.wf(),
            r.id_to_player@ == Map::<u64, Player>::empty(),
            r.turn == Player::Red,
            r.grid.grid@ == crate::grid::spec_default_grid(),
            r.attack_controller == (AttackController { selected: None, selected_level: None }),
            r.terrain_controller.placement_mode == Terrain::Mountain,
            r.terrain_controller.last_placed == Terrain::Plain,
            r.terrain_controller.mountain_count[0] == 0 && r.terrain_controller.mountain_count[1]
                == 0,
            r.terrain_controller.water_count[0] == 0 && r.terrain_controller.water_count[1] == 0,
            r.farm_counter == (FarmCounter { counts: [0usize, 0usize], points: [0usize, 0usize] }),
            r.game_phase == GamePhase::TerrainPlacement,
    {
        GameState {
            id_to_player: HashMap::new(),
            turn: Player::Red,
            grid: TileGrid::default(),
            attack_controller: AttackController::default(),
            terrain_controller: TerrainCounter::default(),
            farm_counter: FarmCounter::default(),
            game_phase: GamePhase::TerrainPlacement,
        }
    }

    /// Record which side the connection `player_id` plays.
    pub fn set_player_id(&mut self, player_id: u64, player: Player)
        ensures
            final(self).id_to_player@ == old(self).id_to_player@.insert(player_id, player),
            final(self).turn == old(self).turn,
            final(self).grid == old(self).grid,
            final(self).attack_controller == old(self).attack_controller,
            final(self).terrain_controller == old(self).terrain_controller,
            final(self).farm_counter == old(self).farm_counter,
            final(self).game_phase == old(self).game_phase,
    {
        self.id_to_player.insert(player_id, player);
    }

    /// Whether the connection `client_id` is mapped to the player whose
    /// turn it is.
    pub fn is_player(&self, client_id: u64) -> (r: bool)
        ensures
            r == self.spec_is_player(client_id),
    {
        if let Some(p) = self.id_to_player.get(&client_id) {
            return *p == self.turn;
        }
        false
    }

    /// Spec view of `is_player`.
    pub open spec fn spec_is_player(self, client_id: u64) -> bool {
        &&& self.id_to_player@.contains_key(client_id)
        &&& self.id_to_player@[client_id] == self.turn
    }

    /// The target list of an attack intent: from the selected origin (or
    /// any owned neighbour of the clicked cell), with the selected level
    /// (or the single-target default when nothing is selected), the
    /// level's shape towards the clicked cell — or nothing if the origin
    /// is missing or the displacement is invalid.
    pub fn get_targets(&self, tile_event: &TileEvent) -> (r: Option<Vec<GridVec>>)
        requires
            self.wf(),
        ensures
            (r is Some) == (spec_targets(*self, *tile_event) is Some),
            r matches Some(v) ==> spec_targets(*self, *tile_event) matches Some(ts) && v@ == ts,
    {
        let (position, action) = match tile_event {
            TileEvent::TileAction { position, action, .. } => (*position, *action),
            _ => { return None },
        };
        match action {
            GameInput::Mouse(MouseButton::Left) => {},
            _ => { return None },
        }

        let origin = match self.attack_controller.selected {
            Some(o) => o,
            None => match self.grid.get_any_connected(position, self.turn) {
                Some(o) => o,
                None => { return None },
            },
        };
        proof {
            // Either the selection invariant or ownership of the found
            // neighbour puts the origin on the board.
            if self.attack_controller.selected is None {
                let ns = crate::grid::spec_connected_neighbors(self.grid.grid@, position, self.turn);
                assert(origin == ns[0]);
                lemma_neighbors_in_bounds(self.grid.grid@, position, self.turn);
            }
            assert(spec_in_bounds(origin.x as int, origin.y as int));
        }

        let level = match self.attack_controller.selected_level {
            Some(l) => l,
            None => 1,
        };

        if !attack_is_valid(origin, position, level) {
            return None;
        }

        let dx = sign_i32(position.x, origin.x);
        let dy = sign_i32(position.y, origin.y);

        let targets: Vec<GridVec> = if level == 2 {
            let first = GridVec { x: origin.x + dx, y: origin.y + dy };
            let second = GridVec { x: origin.x + 2 * dx, y: origin.y + 2 * dy };
            vec![first, second]
        } else if level == 3 {
            let ahead = GridVec { x: origin.x + dx, y: origin.y + dy };
            let right = GridVec { x: origin.x + dx + dy, y: origin.y + dy - dx };
            let left = GridVec { x: origin.x + dx - dy, y: origin.y + dy + dx };
            vec![ahead, right, left]
        } else {
            vec![position]
        };
        proof {
            assert(targets@ =~= spec_attack_shape(origin, position, level as int));
        }
        Some(targets)
    }
}

/// What `player` may still spend.
pub open spec fn spec_avail(fc: FarmCounter, player: Player) -> int {
    fc.counts[player.spec_index()] - fc.points[player.spec_index()]
}

/// The validation rules, as one total function from state and intent to
/// the action taken, if any.  `get_action` returns exactly this.
pub open spec fn spec_get_action(s: GameState, event: TileEvent) -> Option<ActionView> {
    match event {
        TileEvent::TileAction { client_id, position, action } => {
            if s.game_phase != GamePhase::Game {
                None
            } else if !s.spec_is_player(client_id) || !spec_in_bounds(
                position.x as int,
                position.y as int,
            ) {
                None
            } else {
                let tile = s.grid.grid@[spec_index_of(position.x as int, position.y as int)];
                let avail = spec_avail(s.farm_counter, s.turn);
                if tile.spec_is_tile() && tile.spec_owner() == Some(s.turn) && action
                    == GameInput::Mouse(MouseButton::Right) {
                    Some(ActionView::MakeFarm(position))
                } else if ((tile.spec_is_tile() && avail >= 1) || tile.spec_is_farm())
                    && tile.spec_owner() == Some(s.turn) && action == GameInput::Mouse(
                    MouseButton::Left,
                ) {
                    Some(ActionView::Upgrade(position))
                } else if action == GameInput::Mouse(MouseButton::Left) && avail >= 1 && (
                spec_targets(s, event) matches Some(ts) && ts.len() <= avail) {
                    Some(ActionView::Attack(spec_targets(s, event)->Some_0))
                } else {
                    None
                }
            }
        },
        TileEvent::ToggleSelect { client_id, position } => {
            if s.game_phase != GamePhase::Game {
                None
            } else if s.spec_is_player(client_id) && s.attack_controller.selected is Some {
                Some(ActionView::Deselect)
            } else {
                let tile = s.grid.grid@[spec_index_of(position.x as int, position.y as int)];
                if s.spec_is_player(client_id) && tile.spec_owner() == Some(s.turn)
                    && tile.spec_is_tile() {
                    Some(ActionView::Select(position))
                } else {
                    None
                }
            }
        },
        TileEvent::TerrainAction { client_id, position, action } => {
            if s.game_phase != GamePhase::TerrainPlacement {
                None
            } else if !s.spec_is_player(client_id) {
                None
            } else {
                let tile = s.grid.grid@[spec_index_of(position.x as int, position.y as int)];
                if tile.spec_owner() is None {
                    match action {
                        GameInput::Mouse(MouseButton::Left) => if spec_in_bounds(
                            position.x as int,
                            position.y as int,
                        ) && s.terrain_controller.spec_can_add(s.turn) {
                            Some(ActionView::MakeTerrain(
                                position,
                                s.terrain_controller.placement_mode,
                            ))
                        } else {
                            None
                        },
                        GameInput::Mouse(MouseButton::Right) => if spec_in_bounds(
                            position.x as int,
                            position.y as int,
                        ) {
                            Some(ActionView::MakeTerrain(position, Terrain::Plain))
                        } else {
                            None
                        },
                        GameInput::Keyboard(KeyCode::M) => Some(ActionView::SetTerrainMode(
                            Terrain::Mountain,
                        )),
                        GameInput::Keyboard(KeyCode::W) => Some(ActionView::SetTerrainMode(
                            Terrain::Water,
                        )),
                        GameInput::Keyboard(KeyCode::Return) => Some(
                            ActionView::EndTerrainPlacement,
                        ),
                        _ => None,
                    }
                } else {
                    None
                }
            }
        },
        TileEvent::Idle => None,
    }
}

impl GameState {
    /// Validate an intent into an action, mutating nothing.  Every failure
    /// — wrong phase, wrong turn, off-board click, short economy, invalid
    /// shape — is a silent `None`.
    pub fn get_action(&self, tile_event: &TileEvent) -> (r: Option<GameAction>)
        requires
            self.wf(),
        ensures
            spec_action_option_view(r) == spec_get_action(*self, *tile_event),
    {
        match tile_event {
            TileEvent::TileAction { client_id, position, action } => {
                if !matches!(self.game_phase, GamePhase::Game) {
                    return None;
                }
                if !self.is_player(*client_id) || !TileGrid::in_bounds_index(position) {
                    return None;
                }
                let tile = self.grid.get_tile(*position);
                let avail = self.farm_counter.available_farms()[self.turn.index()];
                let owner_is_turn = match tile.owner() {
                    Some(p) => p == self.turn,
                    None => false,
                };
                if tile.is_tile() && owner_is_turn && matches!(
                    action,
                    GameInput::Mouse(MouseButton::Right),
                ) {
                    return Some(GameAction::MakeFarm(*position));
                }
                if ((tile.is_tile() && avail >= 1) || tile.is_farm()) && owner_is_turn && matches!(
                    action,
                    GameInput::Mouse(MouseButton::Left),
                ) {
                    return Some(GameAction::Upgrade(*position));
                }
                if matches!(action, GameInput::Mouse(MouseButton::Left)) && avail >= 1 {
                    match self.get_targets(tile_event) {
                        Some(targets) => {
                            if targets.len() <= avail {
                                return Some(GameAction::Attack(targets));
                            }
                        },
                        None => {},
                    }
                }
                None
            },
            TileEvent::ToggleSelect { client_id, position } => {
                if !matches!(self.game_phase, GamePhase::Game) {
                    return None;
                }
                if self.is_player(*client_id) && self.attack_controller.selected.is_some() {
                    return Some(GameAction::Deselect);
                }
                let tile = self.grid.get_tile(*position);
                let owner_is_turn = match tile.owner() {
                    Some(p) => p == self.turn,
                    None => false,
                };
                if self.is_player(*client_id) && owner_is_turn && tile.is_tile() {
                    Some(GameAction::Select(*position))
                } else {
                    None
                }
            },
            TileEvent::TerrainAction { client_id, position, action } => {
                if !matches!(self.game_phase, GamePhase::TerrainPlacement) {
                    return None;
                }
                if !self.is_player(*client_id) {
                    return None;
                }
                let tile = self.grid.get_tile(*position);
                if tile.owner().is_some() {
                    return None;
                }
                match action {
                    GameInput::Mouse(MouseButton::Left) => {
                        if TileGrid::in_bounds_index(position) && self.terrain_controller.can_add(
                            self.turn,
                        ) {
                            Some(GameAction::MakeTerrain(
                                *position,
                                self.terrain_controller.placement_mode,
                            ))
                        } else {
                            None
                        }
                    },
                    GameInput::Mouse(MouseButton::Right) => {
                        if TileGrid::in_bounds_index(position) {
                            Some(GameAction::MakeTerrain(*position, Terrain::Plain))
                        } else {
                            None
                        }
                    },
                    GameInput::Keyboard(KeyCode::M) => Some(GameAction::SetTerrainMode(
                        Terrain::Mountain,
                    )),
                    GameInput::Keyboard(KeyCode::W) => Some(GameAction::SetTerrainMode(
                        Terrain::Water,
                    )),
                    GameInput::Keyboard(KeyCode::Return) => Some(GameAction::EndTerrainPlacement),
                    _ => None,
                }
            },
            TileEvent::Idle => None,
        }
    }
}

/// The unit direction from `from` towards `to` along one axis.
fn sign_i32(to: i32, from: i32) -> (r: i32)
    ensures
        r as int == spec_sign(to as int - from as int),
{
    if to > from {
        1
    } else if to < from {
        -1
    } else {
        0
    }
}

/// One attack step on one target: a point of damage, then capture if the
/// hp ran out or the target is a Farm (which falls to any hit).
pub open spec fn spec_attack_step(g: Seq<TileType>, t: GridVec, attacker: Player) -> Seq<
    TileType,
> {
    let damaged = g[spec_index_of(t.x as int, t.y as int)].spec_damaged(1);
    let g1 = spec_set_tile(g, t, damaged);
    if damaged.spec_hp() == 0 || damaged.spec_is_farm() {
        spec_set_tile(g1, t, spec_captured(damaged, attacker))
    } else {
        g1
    }
}

/// The grid after the first `i` targets of an attack, in order.
pub open spec fn spec_attack_fold(
    g: Seq<TileType>,
    targets: Seq<GridVec>,
    attacker: Player,
    i: int,
) -> Seq<TileType>
    decreases i,
{
    if i <= 0 {
        g
    } else {
        spec_attack_step(spec_attack_fold(g, targets, attacker, i - 1), targets[i - 1], attacker)
    }
}

/// The diff record for each attack target: its position and the tile it
/// holds right after its own step.
pub open spec fn spec_attack_changes(
    g: Seq<TileType>,
    targets: Seq<GridVec>,
    attacker: Player,
) -> Seq<TileChange> {
    Seq::new(targets.len(), |k: int| TileChange {
        position: targets[k],
        tile: spec_attack_fold(g, targets, attacker, k + 1)[spec_index_of(
            targets[k].x as int,
            targets[k].y as int,
        )],
    })
}

/// One attack step keeps the grid's shape and raises only the attacker's
/// score, by at most one point.
proof fn lemma_attack_step_bounds(g: Seq<TileType>, t: GridVec, attacker: Player, q: Player)
    requires
        g.len() == GRID_SIZE,
        g[SENTINEL_INDEX as int] == TileType::Empty(Terrain::Plain),
    ensures
        spec_attack_step(g, t, attacker).len() == GRID_SIZE,
        spec_attack_step(g, t, attacker)[SENTINEL_INDEX as int] == TileType::Empty(Terrain::Plain),
        spec_score(spec_attack_step(g, t, attacker), q) <= spec_score(g, q) + if q == attacker {
            1int
        } else {
            0int
        },
{
    let i = spec_index_of(t.x as int, t.y as int);
    let damaged = g[i].spec_damaged(1);
    let g1 = spec_set_tile(g, t, damaged);
    if spec_in_bounds(t.x as int, t.y as int) {
        assert(spec_contrib(damaged, q) == spec_contrib(g[i], q));
        lemma_score_upto_update(g, q, i, damaged, SENTINEL_INDEX as int);
        assert(spec_score(g1, q) == spec_score(g, q));
        if damaged.spec_hp() == 0 || damaged.spec_is_farm() {
            let captured = spec_captured(damaged, attacker);
            assert(spec_contrib(captured, q) == if q == attacker {
                1int
            } else {
                0int
            });
            assert(spec_contrib(g1[i], q) >= 0);
            lemma_score_upto_update(g1, q, i, captured, SENTINEL_INDEX as int);
        }
    }
}

/// Attacking `i` targets keeps the grid's shape and raises only the
/// attacker's score, by at most a point per target.
proof fn lemma_attack_fold_bounds(
    g: Seq<TileType>,
    targets: Seq<GridVec>,
    attacker: Player,
    q: Player,
    i: int,
)
    requires
        g.len() == GRID_SIZE,
        g[SENTINEL_INDEX as int] == TileType::Empty(Terrain::Plain),
        i >= 0,
    ensures
        spec_attack_fold(g, targets, attacker, i).len() == GRID_SIZE,
        spec_attack_fold(g, targets, attacker, i)[SENTINEL_INDEX as int] == TileType::Empty(
            Terrain::Plain,
        ),
        spec_score(spec_attack_fold(g, targets, attacker, i), q) <= spec_score(g, q) + if q
            == attacker {
            i
        } else {
            0int
        },
    decreases i,
{
    if i > 0 {
        lemma_attack_fold_bounds(g, targets, attacker, q, i - 1);
        lemma_attack_step_bounds(
            spec_attack_fold(g, targets, attacker, i - 1),
            targets[i - 1],
            attacker,
            q,
        );
    }
}

/// Upgrading or overwriting one cell moves a score by at most one point
/// upward.
proof fn lemma_single_write_score(g: Seq<TileType>, p: GridVec, t: TileType, q: Player)
    requires
        g.len() == GRID_SIZE,
        spec_contrib(t, q) <= 1 || spec_contrib(t, q) <= spec_contrib(
            g[spec_index_of(p.x as int, p.y as int)],
            q,
        ) + 1,
    ensures
        spec_score(spec_set_tile(g, p, t), q) <= spec_score(g, q) + 1,
{
    if spec_in_bounds(p.x as int, p.y as int) {
        let i = spec_index_of(p.x as int, p.y as int);
        assert(spec_contrib(g[i], q) >= 0);
        lemma_score_upto_update(g, q, i, t, SENTINEL_INDEX as int);
    }
}

/// The machine limits an action must respect before it can be applied:
/// the recomputed scores must fit, an upgraded cell must have headroom,
/// a selected origin must lie on the board, and a terrain tally must not
/// be saturated.
pub open spec fn spec_consume_fits(s: GameState, a: GameAction) -> bool {
    match a {
        GameAction::Attack(targets) => {
            &&& spec_score(s.grid.grid@, s.turn) + targets@.len() <= usize::MAX
            &&& spec_score(s.grid.grid@, s.turn.spec_other()) <= usize::MAX
        },
        GameAction::Upgrade(position) => {
            let tile = s.grid.grid@[spec_index_of(position.x as int, position.y as int)];
            &&& (tile.spec_level() matches Some(l) ==> l < usize::MAX && tile.spec_hp()
                < usize::MAX)
            &&& spec_score(s.grid.grid@, Player::Red) + 1 <= usize::MAX
            &&& spec_score(s.grid.grid@, Player::Blue) + 1 <= usize::MAX
        },
        GameAction::MakeFarm(_) => {
            &&& spec_score(s.grid.grid@, Player::Red) + 1 <= usize::MAX
            &&& spec_score(s.grid.grid@, Player::Blue) + 1 <= usize::MAX
        },
        GameAction::Select(position) => spec_in_bounds(position.x as int, position.y as int),
        GameAction::MakeTerrain(_, terrain) => {
            &&& (terrain == Terrain::Mountain ==> s.terrain_controller.mountain_count[
                s.turn.spec_index()] < usize::MAX)
            &&& (terrain == Terrain::Water ==> s.terrain_controller.water_count[
                s.turn.spec_index()] < usize::MAX)
        },
        GameAction::EndTerrainPlacement => s.turn == Player::Blue ==> {
            &&& spec_score(s.grid.grid@, Player::Red) <= usize::MAX
            &&& spec_score(s.grid.grid@, Player::Blue) <= usize::MAX
        },
        _ => true,
    }
}

/// What applying `a` to `s0` yields: the new state `s1` and the broadcast
/// events `evs`, exactly, for every variant.
pub open spec fn spec_consume_post(
    s0: GameState,
    a: GameAction,
    s1: GameState,
    evs: Seq<ClientEvent>,
) -> bool {
    &&& s1.id_to_player@ == s0.id_to_player@
    &&& match a {
        GameAction::Attack(targets) => {
            let mid = spec_attack_fold(s0.grid.grid@, targets@, s0.turn, targets@.len() as int);
            let g1 = spec_sweep(mid);
            &&& s1.grid.grid@ == g1
            &&& s1.turn == s0.turn.spec_other()
            &&& s1.attack_controller == (AttackController {
                selected: None,
                selected_level: None,
            })
            &&& s1.farm_counter.counts[0] == spec_score(g1, Player::Red)
            &&& s1.farm_counter.counts[1] == spec_score(g1, Player::Blue)
            &&& s1.farm_counter.points[0] == 0 && s1.farm_counter.points[1] == 0
            &&& s1.terrain_controller == s0.terrain_controller
            &&& s1.game_phase == s0.game_phase
            &&& evs.len() == 4
            &&& (evs[0] matches ClientEvent::TileChanges(cs) && cs@ == spec_attack_changes(
                s0.grid.grid@,
                targets@,
                s0.turn,
            ) + spec_sweep_changes(mid))
            &&& evs[1] == ClientEvent::Turn(s0.turn.spec_other())
            &&& (evs[2] matches ClientEvent::Farms(f) && f[0] == spec_score(g1, Player::Red)
                && f[1] == spec_score(g1, Player::Blue))
            &&& evs[3] == ClientEvent::Deselect
        },
        GameAction::Upgrade(position) => {
            let tile0 = s0.grid.grid@[spec_index_of(position.x as int, position.y as int)];
            let g1 = spec_set_tile(s0.grid.grid@, position, tile0.spec_upgraded());
            &&& s1.grid.grid@ == g1
            &&& s1.turn == s0.turn.spec_other()
            &&& s1.attack_controller == (AttackController {
                selected: None,
                selected_level: None,
            })
            &&& s1.farm_counter.counts[0] == spec_score(g1, Player::Red)
            &&& s1.farm_counter.counts[1] == spec_score(g1, Player::Blue)
            &&& s1.farm_counter.points[0] == 0 && s1.farm_counter.points[1] == 0
            &&& s1.terrain_controller == s0.terrain_controller
            &&& s1.game_phase == s0.game_phase
            &&& evs.len() == 4
            &&& (evs[0] matches ClientEvent::TileChanges(cs) && cs@ == seq![
                TileChange {
                    position,
                    tile: g1[spec_index_of(position.x as int, position.y as int)],
                },
            ])
            &&& evs[1] == ClientEvent::Turn(s0.turn.spec_other())
            &&& (evs[2] matches ClientEvent::Farms(f) && f[0] == spec_score(g1, Player::Red)
                && f[1] == spec_score(g1, Player::Blue))
            &&& evs[3] == ClientEvent::Deselect
        },
        GameAction::MakeFarm(position) => {
            let farm = TileType::Occupied {
                player_tile: PlayerTile::Farm,
                terrain: s0.grid.grid@[spec_index_of(
                    position.x as int,
                    position.y as int,
                )].spec_terrain(),
                owner: s0.turn,
                level: 1usize,
                hp: 1usize,
            };
            let g1 = spec_set_tile(s0.grid.grid@, position, farm);
            &&& s1.grid.grid@ == g1
            &&& s1.turn == s0.turn.spec_other()
            &&& s1.attack_controller == (AttackController {
                selected: None,
                selected_level: None,
            })
            &&& s1.farm_counter.counts[0] == spec_score(g1, Player::Red)
            &&& s1.farm_counter.counts[1] == spec_score(g1, Player::Blue)
            &&& s1.farm_counter.points[0] == 0 && s1.farm_counter.points[1] == 0
            &&& s1.terrain_controller == s0.terrain_controller
            &&& s1.game_phase == s0.game_phase
            &&& evs.len() == 4
            &&& (evs[0] matches ClientEvent::TileChanges(cs) && cs@ == seq![
                TileChange {
                    position,
                    tile: g1[spec_index_of(position.x as int, position.y as int)],
                },
            ])
            &&& evs[1] == ClientEvent::Turn(s0.turn.spec_other())
            &&& (evs[2] matches ClientEvent::Farms(f) && f[0] == spec_score(g1, Player::Red)
                && f[1] == spec_score(g1, Player::Blue))
            &&& evs[3] == ClientEvent::Deselect
        },
        GameAction::Select(position) => {
            let tile = s0.grid.grid@[spec_index_of(position.x as int, position.y as int)];
            let level = match tile.spec_level() {
                Some(l) => l,
                None => 1usize,
            };
            &&& s1.grid == s0.grid
            &&& s1.turn == s0.turn
            &&& s1.attack_controller == (AttackController {
                selected: Some(position),
                selected_level: Some(level),
            })
            &&& s1.farm_counter == s0.farm_counter
            &&& s1.terrain_controller == s0.terrain_controller
            &&& s1.game_phase == s0.game_phase
            &&& evs.len() == 1
            &&& evs[0] == ClientEvent::Select(position)
        },
        GameAction::Deselect => {
            &&& s1.grid == s0.grid
            &&& s1.turn == s0.turn
            &&& s1.attack_controller == (AttackController {
                selected: None,
                selected_level: None,
            })
            &&& s1.farm_counter == s0.farm_counter
            &&& s1.terrain_controller == s0.terrain_controller
            &&& s1.game_phase == s0.game_phase
            &&& evs.len() == 1
            &&& evs[0] == ClientEvent::Deselect
        },
        GameAction::MakeTerrain(position, terrain) => {
            let g1 = spec_set_tile(s0.grid.grid@, position, TileType::Empty(terrain));
            &&& s1.grid.grid@ == g1
            &&& s1.turn == s0.turn
            &&& s1.attack_controller == s0.attack_controller
            &&& s1.farm_counter == s0.farm_counter
            &&& s1.terrain_controller == s0.terrain_controller.spec_set(terrain, s0.turn)
            &&& s1.game_phase == s0.game_phase
            &&& evs.len() == 1
            &&& (evs[0] matches ClientEvent::TileChanges(cs) && cs@ == seq![
                TileChange {
                    position,
                    tile: g1[spec_index_of(position.x as int, position.y as int)],
                },
            ])
        },
        GameAction::SetTerrainMode(terrain) => {
            &&& s1.grid == s0.grid
            &&& s1.turn == s0.turn
            &&& s1.attack_controller == s0.attack_controller
            &&& s1.farm_counter == s0.farm_counter
            &&& s1.terrain_controller == (TerrainCounter {
                placement_mode: terrain,
                ..s0.terrain_controller
            })
            &&& s1.game_phase == s0.game_phase
            &&& evs.len() == 1
            &&& evs[0] == ClientEvent::TerrainMode(terrain)
        },
        GameAction::EndTerrainPlacement => {
            if s0.turn == Player::Blue {
                &&& s1.grid == s0.grid
                &&& s1.turn == s0.turn.spec_other()
                &&& s1.attack_controller == s0.attack_controller
                &&& s1.farm_counter.counts[0] == spec_score(s0.grid.grid@, Player::Red)
                &&& s1.farm_counter.counts[1] == spec_score(s0.grid.grid@, Player::Blue)
                &&& s1.farm_counter.points[0] == 0 && s1.farm_counter.points[1] == 0
                &&& s1.terrain_controller == s0.terrain_controller
                &&& s1.game_phase == GamePhase::Game
                &&& evs.len() == 3
                &&& evs[0] == ClientEvent::GamePhase(ClientState::Game)
                &&& evs[1] == ClientEvent::Turn(s0.turn.spec_other())
                &&& (evs[2] matches ClientEvent::Farms(f) && f[0] == spec_score(
                    s0.grid.grid@,
                    Player::Red,
                ) && f[1] == spec_score(s0.grid.grid@, Player::Blue))
            } else {
                &&& s1.grid == s0.grid
                &&& s1.turn == s0.turn.spec_other()
                &&& s1.attack_controller == s0.attack_controller
                &&& s1.farm_counter == s0.farm_counter
                &&& s1.terrain_controller == s0.terrain_controller
                &&& s1.game_phase == s0.game_phase
                &&& evs.len() == 1
                &&& evs[0] == ClientEvent::Turn(s0.turn.spec_other())
            }
        },
    }
}

impl GameState {
    /// Apply a validated action: mutate grid, turn, counters and selection
    /// as one atomic step and return the broadcasts, exactly as
    /// `spec_consume_post` describes for each variant.
    pub fn consume(&mut self, action: &GameAction) -> (r: Vec<ClientEvent>)
        requires
            old(self).wf(),
            spec_consume_fits(*old(self), *action),
        ensures
            final(self).wf(),
            spec_consume_post(*old(self), *action, *final(self), r@),
    {
        let ghost g0 = self.grid.grid@;
        match action {
            GameAction::Attack(targets) => {
                let attacker = self.turn;
                self.attack_controller.deselect();

                let mut changes: Vec<TileChange> = Vec::new();
                let mut k: usize = 0;
                while k < targets.len()
                    invariant
                        self.grid.wf(),
                        k <= targets@.len(),
                        g0.len() == GRID_SIZE,
                        g0[SENTINEL_INDEX as int] == TileType::Empty(Terrain::Plain),
                        self.attack_controller == (AttackController {
                            selected: None,
                            selected_level: None,
                        }),
                        self.turn == old(self).turn,
                        attacker == old(self).turn,
                        self.terrain_controller == old(self).terrain_controller,
                        self.farm_counter == old(self).farm_counter,
                        self.game_phase == old(self).game_phase,
                        self.id_to_player@ == old(self).id_to_player@,
                        self.grid.grid@ == spec_attack_fold(g0, targets@, attacker, k as int),
                        changes@.len() == k,
                        forall|j: int|
                            0 <= j < k ==> #[trigger] changes@[j] == spec_attack_changes(
                                g0,
                                targets@,
                                attacker,
                            )[j],
                    decreases targets@.len() - k,
                {
                    let t = targets[k];
                    let remaining = self.grid.damage(t, 1);
                    let now_farm = self.grid.get_tile(t).is_farm();
                    if remaining == 0 || now_farm {
                        self.grid.capture(t, attacker);
                    }
                    proof {
                        assert(self.grid.grid@ =~= spec_attack_fold(
                            g0,
                            targets@,
                            attacker,
                            k as int + 1,
                        ));
                    }
                    changes.push(TileChange { position: t, tile: self.grid.get_tile(t) });
                    k = k + 1;
                }

                let ghost mid = self.grid.grid@;
                let mut sweep_changes = self.grid.update();
                proof {
                    lemma_attack_fold_bounds(g0, targets@, attacker, Player::Red, targets@.len() as int);
                    lemma_attack_fold_bounds(g0, targets@, attacker, Player::Blue, targets@.len() as int);
                    lemma_score_sweep_le(mid, Player::Red);
                    lemma_score_sweep_le(mid, Player::Blue);
                    lemma_score_pos(self.grid.grid@, Player::Red, SENTINEL_INDEX as int);
                    lemma_score_pos(self.grid.grid@, Player::Blue, SENTINEL_INDEX as int);
                }

                self.turn = self.turn.other();
                self.farm_counter.update(&self.grid);

                let mut all_changes = changes;
                all_changes.append(&mut sweep_changes);
                proof {
                    assert(all_changes@ =~= spec_attack_changes(g0, targets@, attacker)
                        + spec_sweep_changes(mid));
                }

                let mut events: Vec<ClientEvent> = Vec::new();
                events.push(ClientEvent::TileChanges(all_changes));
                events.push(ClientEvent::Turn(self.turn));
                events.push(ClientEvent::Farms(self.farm_counter.available_farms()));
                events.push(ClientEvent::Deselect);
                events
            },
            GameAction::Upgrade(position) => {
                let ghost tile0 = g0[spec_index_of(position.x as int, position.y as int)];
                self.grid.upgrade(*position);
                self.attack_controller.deselect();
                proof {
                    assert(spec_contrib(tile0.spec_upgraded(), Player::Red) <= spec_contrib(
                        tile0,
                        Player::Red,
                    ) + 1);
                    assert(spec_contrib(tile0.spec_upgraded(), Player::Blue) <= spec_contrib(
                        tile0,
                        Player::Blue,
                    ) + 1);
                    lemma_single_write_score(g0, *position, tile0.spec_upgraded(), Player::Red);
                    lemma_single_write_score(g0, *position, tile0.spec_upgraded(), Player::Blue);
                    lemma_score_pos(self.grid.grid@, Player::Red, SENTINEL_INDEX as int);
                    lemma_score_pos(self.grid.grid@, Player::Blue, SENTINEL_INDEX as int);
                }

                let change = TileChange { position: *position, tile: self.grid.get_tile(*position) };
                let changes = vec![change];
                proof {
                    assert(changes@ =~= seq![change]);
                }

                self.turn = self.turn.other();
                self.farm_counter.update(&self.grid);

                let mut events: Vec<ClientEvent> = Vec::new();
                events.push(ClientEvent::TileChanges(changes));
                events.push(ClientEvent::Turn(self.turn));
                events.push(ClientEvent::Farms(self.farm_counter.available_farms()));
                events.push(ClientEvent::Deselect);
                events
            },
            GameAction::MakeFarm(position) => {
                // The terrain under the new Farm is preserved, as it is
                // across every other occupation change.
                let terrain = self.grid.get_tile(*position).terrain();
                let farm = TileType::Occupied {
                    player_tile: PlayerTile::Farm,
                    terrain,
                    owner: self.turn,
                    level: 1,
                    hp: 1,
                };
                self.grid.set_tile(*position, farm);
                self.attack_controller.deselect();
                proof {
                    lemma_single_write_score(g0, *position, farm, Player::Red);
                    lemma_single_write_score(g0, *position, farm, Player::Blue);
                    lemma_score_pos(self.grid.grid@, Player::Red, SENTINEL_INDEX as int);
                    lemma_score_pos(self.grid.grid@, Player::Blue, SENTINEL_INDEX as int);
                }

                let change = TileChange { position: *position, tile: self.grid.get_tile(*position) };
                let changes = vec![change];
                proof {
                    assert(changes@ =~= seq![change]);
                }

                self.turn = self.turn.other();
                self.farm_counter.update(&self.grid);

                let mut events: Vec<ClientEvent> = Vec::new();
                events.push(ClientEvent::TileChanges(changes));
                events.push(ClientEvent::Turn(self.turn));
                events.push(ClientEvent::Farms(self.farm_counter.available_farms()));
                events.push(ClientEvent::Deselect);
                events
            },
            GameAction::Select(position) => {
                let level = match self.grid.get_tile(*position).level() {
                    Some(l) => l,
                    None => 1,
                };
                self.attack_controller.select(*position, level);
                let mut events: Vec<ClientEvent> = Vec::new();
                events.push(ClientEvent::Select(*position));
                events
            },
            GameAction::Deselect => {
                self.attack_controller.deselect();
                let mut events: Vec<ClientEvent> = Vec::new();
                events.push(ClientEvent::Deselect);
                events
            },
            GameAction::MakeTerrain(position, terrain) => {
                self.grid.set_tile(*position, TileType::Empty(*terrain));
                self.terrain_controller.set(*terrain, self.turn);
                let change = TileChange { position: *position, tile: self.grid.get_tile(*position) };
                let changes = vec![change];
                proof {
                    assert(changes@ =~= seq![change]);
                }
                let mut events: Vec<ClientEvent> = Vec::new();
                events.push(ClientEvent::TileChanges(changes));
                events
            },
            GameAction::SetTerrainMode(terrain) => {
                self.terrain_controller.placement_mode = *terrain;
                let mut events: Vec<ClientEvent> = Vec::new();
                events.push(ClientEvent::TerrainMode(*terrain));
                events
            },
            GameAction::EndTerrainPlacement => {
                if matches!(self.turn, Player::Blue) {
                    self.game_phase = GamePhase::Game;
                    self.turn = self.turn.other();
                    proof {
                        lemma_score_pos(self.grid.grid@, Player::Red, SENTINEL_INDEX as int);
                        lemma_score_pos(self.grid.grid@, Player::Blue, SENTINEL_INDEX as int);
                    }
                    self.farm_counter.update(&self.grid);
                    let mut events: Vec<ClientEvent> = Vec::new();
                    events.push(ClientEvent::GamePhase(ClientState::Game));
                    events.push(ClientEvent::Turn(self.turn));
                    events.push(ClientEvent::Farms(self.farm_counter.available_farms()));
                    events
                } else {
                    self.turn = self.turn.other();
                    let mut events: Vec<ClientEvent> = Vec::new();
                    events.push(ClientEvent::Turn(self.turn));
                    events
                }
            },
        }
    }
}

/// Cells the adjacency scan yields are owned, hence on the board.
proof fn lemma_neighbors_in_bounds(g: Seq<TileType>, pos: GridVec, owner: Player)
    requires
        g.len() == GRID_SIZE,
        g[SENTINEL_INDEX as int] == TileType::Empty(Terrain::Plain),
    ensures
        forall|k: int|
            0 <= k < crate::grid::spec_connected_neighbors(g, pos, owner).len() ==> {
                let n = #[trigger] crate::grid::spec_connected_neighbors(g, pos, owner)[k];
                spec_in_bounds(n.x as int, n.y as int)
            },
{
    let ns = crate::grid::spec_connected_neighbors(g, pos, owner);
    assert forall|k: int| 0 <= k < ns.len() implies {
        let n = #[trigger] ns[k];
        spec_in_bounds(n.x as int, n.y as int)
    } by {
        lemma_neighbor_entry_in_bounds(g, pos.x as int + 1, pos.y as int, owner);
        lemma_neighbor_entry_in_bounds(g, pos.x as int - 1, pos.y as int, owner);
        lemma_neighbor_entry_in_bounds(g, pos.x as int, pos.y as int + 1, owner);
        lemma_neighbor_entry_in_bounds(g, pos.x as int, pos.y as int - 1, owner);
    }
}

/// A nonempty neighbour record names an owned, on-board cell.
proof fn lemma_neighbor_entry_in_bounds(g: Seq<TileType>, x: int, y: int, owner: Player)
    requires
        g.len() == GRID_SIZE,
        g[SENTINEL_INDEX as int] == TileType::Empty(Terrain::Plain),
    ensures
        forall|k: int|
            0 <= k < crate::grid::spec_neighbor_entry(g, x, y, owner).len() ==> {
                let n = #[trigger] crate::grid::spec_neighbor_entry(g, x, y, owner)[k];
                spec_in_bounds(n.x as int, n.y as int)
            },
{
    if g[spec_index_of(x, y)].spec_owner() == Some(owner) {
        assert(spec_in_bounds(x, y));
    }
}

} // verus!
