//! The wire vocabulary: intents clients send and broadcasts the
//! authoritative process answers with.
//!
//! Everything here is plain data; the transport that carries it is outside
//! the core.

use vstd::prelude::*;

use crate::grid::{GridVec, TileGrid};
use crate::input::{GameInput, KeyCode, MouseButton};
use crate::player::Player;
use crate::tiles::{Terrain, TileType};

verus! {

/// One cell's new value, broadcast after a resolved action.
#[derive(Copy, Clone, PartialEq, Eq, Structural, Debug)]
pub struct TileChange {
    pub position: GridVec,
    pub tile: TileType,
}

/// A client's intent, as received from the transport.
#[derive(Copy, Clone, PartialEq, Eq, Structural, Debug)]
pub enum TileEvent {
    /// A click on the board during the game phase.
    TileAction { client_id: u64, position: GridVec, action: GameInput },
    /// A selection toggle during the game phase.
    ToggleSelect { client_id: u64, position: GridVec },
    /// A click or key press during terrain placement.
    TerrainAction { client_id: u64, position: GridVec, action: GameInput },
    /// No intent; padding on the wire.
    Idle,
}

impl TileEvent {
    pub fn is_none(&self) -> (r: bool)
        ensures
            r == (self is Idle),
    {
        matches!(self, TileEvent::Idle)
    }

    /// A game-phase click with the given button at `position`.
    pub fn new_action(client_id: u64, button: &MouseButton, position: GridVec) -> (r: TileEvent)
        ensures
            r == (TileEvent::TileAction { client_id, position, action: GameInput::Mouse(*button) }),
    {
        TileEvent::TileAction { client_id, position, action: GameInput::Mouse(*button) }
    }

    /// Route a raw input to the intent it means in the client's phase:
    /// clicks are terrain actions while terrain is being placed and tile
    /// actions afterwards; the space bar toggles selection; every other key
    /// is a terrain action.
    pub fn from_input(client_id: u64, position: GridVec, input: GameInput, state: &ClientState) -> (r:
        TileEvent)
        ensures
            r == spec_from_input(client_id, position, input, *state),
    {
        match input {
            GameInput::Mouse(button) => {
                if *state == ClientState::Terrain {
                    TileEvent::TerrainAction { client_id, position, action: GameInput::Mouse(button) }
                } else {
                    TileEvent::TileAction { client_id, position, action: GameInput::Mouse(button) }
                }
            },
            GameInput::Keyboard(KeyCode::Space) => TileEvent::ToggleSelect { client_id, position },
            GameInput::Keyboard(k) => TileEvent::TerrainAction {
                client_id,
                position,
                action: GameInput::Keyboard(k),
            },
        }
    }
}

/// Spec view of `TileEvent::from_input`.
pub open spec fn spec_from_input(
    client_id: u64,
    position: GridVec,
    input: GameInput,
    state: ClientState,
) -> TileEvent {
    match input {
        GameInput::Mouse(button) => if state == ClientState::Terrain {
            TileEvent::TerrainAction { client_id, position, action: GameInput::Mouse(button) }
        } else {
            TileEvent::TileAction { client_id, position, action: GameInput::Mouse(button) }
        },
        GameInput::Keyboard(KeyCode::Space) => TileEvent::ToggleSelect { client_id, position },
        GameInput::Keyboard(k) => TileEvent::TerrainAction {
            client_id,
            position,
            action: GameInput::Keyboard(k),
        },
    }
}

/// The lifecycle a client walks through; the core only distinguishes the
/// last two stages.
#[derive(Clone, PartialEq, Eq, Structural, Debug, Hash)]
pub enum ClientState {
    Menu,
    Lobby,
    Terrain,
    Game,
}

impl Default for ClientState {
    fn default() -> (r: ClientState)
        ensures
            r == ClientState::Menu,
    {
        ClientState::Menu
    }
}

/// A broadcast from the authoritative process to every client.
#[derive(Clone, PartialEq, Eq, Debug)]
pub enum ClientEvent {
    /// The full grid, sent once both players are connected.
    Init(Box<TileGrid>),
    /// The cells an action changed, with their new values.
    TileChanges(Vec<TileChange>),
    Select(GridVec),
    Deselect,
    Turn(Player),
    TerrainMode(Terrain),
    /// Both players' available economy, Red first.
    Farms([usize; 2]),
    GamePhase(ClientState),
}

/// Match-lifecycle notifications exchanged around a session.
#[derive(Clone, PartialEq, Eq, Structural, Debug)]
pub enum GameEvent {
    StartGame,
    EndGame,
    PlayerJoined { player_id: u64 },
    PlayerLeft { player_id: u64 },
    PlayerTurn { player_id: u64, tile_event: TileEvent },
}

/// Marker asking clients to refresh their mirrored grid.
#[derive(Copy, Clone, PartialEq, Eq, Structural, Debug)]
pub struct GameUpdateEvent {}

/// Marker announcing that a match is starting.
#[derive(Copy, Clone, PartialEq, Eq, Structural, Debug)]
pub struct StartGame;

} // verus!
