//! The process-wide state machines: the application mode and the pause mode.

use vstd::prelude::*;

verus! {

/// The top-level mode of the application.
#[derive(Clone, Copy, Debug, PartialEq, Eq, Hash, Structural)]
pub enum AppState {
    Menu,
    InGame,
}

impl Default for AppState {
    fn default() -> (state: Self)
        ensures
            state == AppState::Menu,
    {
        AppState::Menu
    }
}

/// Whether the game is running or paused. It has a meaning only while the
/// application is in game.
#[derive(Clone, Copy, Debug, PartialEq, Eq, Hash, Structural)]
pub enum PauseState {
    Running,
    Paused,
}

impl Default for PauseState {
    fn default() -> (state: Self)
        ensures
            state == PauseState::Running,
    {
        PauseState::Running
    }
}

impl PauseState {
    /// The other pause mode.
    pub open spec fn toggled(self) -> PauseState {
        match self {
            PauseState::Running => PauseState::Paused,
            PauseState::Paused => PauseState::Running,
        }
    }

    /// Gives the other pause mode.
    pub fn toggle(self) -> (next: PauseState)
        ensures
            next == self.toggled(),
    {
        match self {
            PauseState::Running => PauseState::Paused,
            PauseState::Paused => PauseState::Running,
        }
    }
}

} // verus!
