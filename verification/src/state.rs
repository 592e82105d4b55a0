//! The three orthogonal state axes that gate the simulation: where the
//! application is (loading, menu, in the game), whether the current life
//! is still being played, and whether the player paused. Their logical
//! AND decides if the world advances this frame.

use vstd::prelude::*;

verus! {

/// Where the application is: loading assets, at the menu, or in the game.
#[derive(Clone, Copy, PartialEq, Eq, Structural, Debug)]
pub enum AppState {
    Loading,
    Menu,
    Game,
}

/// Whether the current life is still being played or has ended.
#[derive(Clone, Copy, PartialEq, Eq, Structural, Debug)]
pub enum GameState {
    Playing,
    GameOver,
}

/// Whether the player paused the simulation.
#[derive(Clone, Copy, PartialEq, Eq, Structural, Debug)]
pub enum PausedState {
    Running,
    Paused,
}

/// The world-affecting systems (movement, eating, growth, food spawning)
/// run exactly when all three axes allow it.
pub open spec fn can_tick_spec(app: AppState, game: GameState, paused: PausedState) -> bool {
    app is Game && game is Playing && paused is Running
}

/// Whether the world may advance under the given three states.
pub fn can_tick_world(app: AppState, game: GameState, paused: PausedState) -> (r: bool)
    ensures
        r == can_tick_spec(app, game, paused),
{
    app == AppState::Game && game == GameState::Playing && paused == PausedState::Running
}

/// The other paused state.
pub open spec fn toggled_spec(p: PausedState) -> PausedState {
    match p {
        PausedState::Running => PausedState::Paused,
        PausedState::Paused => PausedState::Running,
    }
}

/// Toggle between running and paused.
pub fn toggle_paused(p: PausedState) -> (r: PausedState)
    ensures
        r == toggled_spec(p),
{
    match p {
        PausedState::Running => PausedState::Paused,
        PausedState::Paused => PausedState::Running,
    }
}

} // verus!
