//! Which systems run in a frame, by the application mode and the pause mode.

use crate::resources::{AppState, PauseState};
use vstd::prelude::*;

verus! {

/// The groups of systems that the two state machines gate.
#[derive(Clone, Copy, Debug, PartialEq, Eq, Structural)]
pub enum System {
    /// The game clock.
    GameTime,
    /// Keyboard, pointer and colours of the start menu.
    StartMenu,
    /// Keyboard, pointer and colours of the pause menu.
    IngameMenu,
    /// The key that pauses and resumes the game.
    PauseToggle,
    /// Movement and animation of the player.
    Player,
}

/// Whether `system` runs in a frame that starts in the given modes. The
/// start menu runs in the menu mode. Everything else runs in game only: the
/// pause key always, the pause menu while paused, the clock and the player
/// while running.
pub open spec fn runs_in(system: System, app: AppState, pause: PauseState) -> bool {
    match system {
        System::StartMenu => app == AppState::Menu,
        System::PauseToggle => app == AppState::InGame,
        System::IngameMenu => app == AppState::InGame && pause == PauseState::Paused,
        System::GameTime | System::Player => app == AppState::InGame && pause
            == PauseState::Running,
    }
}

/// No frame runs a menu beside the player, or both menus; and the clock goes
/// exactly when the player moves.
pub proof fn lemma_modes_exclude(app: AppState, pause: PauseState)
    ensures
        !(runs_in(System::StartMenu, app, pause) && runs_in(System::IngameMenu, app, pause)),
        !(runs_in(System::StartMenu, app, pause) && runs_in(System::Player, app, pause)),
        !(runs_in(System::IngameMenu, app, pause) && runs_in(System::Player, app, pause)),
        runs_in(System::GameTime, app, pause) == runs_in(System::Player, app, pause),
{
}

/// Whether `system` runs in a frame that starts in the given modes.
pub fn runs(system: System, app: AppState, pause: PauseState) -> (run: bool)
    ensures
        run == runs_in(system, app, pause),
{
    let in_game = match app {
        AppState::Menu => false,
        AppState::InGame => true,
    };
    let paused = match pause {
        PauseState::Running => false,
        PauseState::Paused => true,
    };
    match system {
        System::StartMenu => !in_game,
        System::PauseToggle => in_game,
        System::IngameMenu => in_game && paused,
        System::GameTime | System::Player => in_game && !paused,
    }
}

} // verus!
