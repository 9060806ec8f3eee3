//! The two menus of the game, and the key that pauses it.

use crate::components::button::{IngameMenuButton, StartMenuButton};
use crate::components::menu::{Activation, IngameMenu, Menu, MenuSelection, StartMenu};
use crate::error::Error;
use crate::input::{escape_just_pressed, just_pressed_keys, Key};
use crate::resources::{AppState, PauseState};
use crate::systems::schedule::{runs_in, System};
use bevy::input::keyboard::KeyCode;
use bevy::input::ButtonInput;
use vstd::prelude::*;

verus! {

/// The pause mode that one frame asks for: the other one if `Escape` was
/// pressed in this frame, and none if it was not.
pub open spec fn pause_request(escape_pressed: bool, pause: PauseState) -> Option<PauseState> {
    if escape_pressed {
        Some(pause.toggled())
    } else {
        None
    }
}

/// Handles the pause key while the application is in game: where `Escape`
/// went down in this frame, the other pause mode is asked for.
pub fn pause_toggle(keys: &ButtonInput<KeyCode>, pause: PauseState) -> (next: Option<PauseState>)
    ensures
        next == pause_request(just_pressed_keys(*keys).contains(Key::Escape), pause),
{
    if escape_just_pressed(keys) {
        Some(pause.toggle())
    } else {
        None
    }
}

/// Each press of `Escape` leads to the other pause mode, so two presses lead
/// back; and the key is heard in game only, in either pause mode.
pub proof fn lemma_escape_toggles(app: AppState, pause: PauseState)
    ensures
        pause_request(true, pause) == Some(pause.toggled()),
        pause_request(false, pause) is None,
        pause.toggled() != pause,
        pause.toggled().toggled() == pause,
        runs_in(System::PauseToggle, app, pause) <==> app == AppState::InGame,
{
}

/// `Start` asks for the game and for nothing else, and once the application
/// is in game the start menu hears no input: it cannot ask again.
pub proof fn lemma_start_enters_game_once(pause: PauseState)
    ensures
        StartMenu::effect(StartMenuButton::Start) == Activation::Transition(AppState::InGame),
        runs_in(System::StartMenu, AppState::Menu, pause),
        !runs_in(System::StartMenu, AppState::InGame, pause),
{
}

/// `Quit` asks for the end of the application in either menu, and `Resume`
/// for the running game. No button asks for the menu mode or for the pause:
/// no menu leads back.
pub proof fn lemma_quit_exits(start: StartMenuButton, ingame: IngameMenuButton)
    ensures
        StartMenu::effect(StartMenuButton::Quit) == Activation::<AppState>::Exit,
        IngameMenu::effect(IngameMenuButton::Quit) == Activation::<PauseState>::Exit,
        IngameMenu::effect(IngameMenuButton::Resume) == Activation::Transition(
            PauseState::Running,
        ),
        StartMenu::effect(start) != Activation::Transition(AppState::Menu),
        IngameMenu::effect(ingame) != Activation::Transition(PauseState::Paused),
{
}

impl Menu for StartMenu {
    type MenuButton = StartMenuButton;

    type State = AppState;

    /// `Start` brings the application into the game, `Quit` ends it.
    open spec fn effect(button: StartMenuButton) -> Activation<AppState> {
        match button {
            StartMenuButton::Start => Activation::Transition(AppState::InGame),
            StartMenuButton::Quit => Activation::Exit,
        }
    }

    open spec fn rejection() -> Seq<char> {
        "Invalid menu selection"@
    }

    fn activate(button: StartMenuButton) -> (request: Activation<AppState>) {
        match button {
            StartMenuButton::Start => Activation::Transition(AppState::InGame),
            StartMenuButton::Quit => Activation::Exit,
        }
    }

    fn selected(selection: &MenuSelection) -> (result: Result<StartMenuButton, Error>) {
        StartMenuButton::try_from(selection)
    }
}

impl Menu for IngameMenu {
    type MenuButton = IngameMenuButton;

    type State = PauseState;

    /// `Resume` lets the game run again, `Quit` ends the application.
    open spec fn effect(button: IngameMenuButton) -> Activation<PauseState> {
        match button {
            IngameMenuButton::Resume => Activation::Transition(PauseState::Running),
            IngameMenuButton::Quit => Activation::Exit,
        }
    }

    open spec fn rejection() -> Seq<char> {
        "Invalid in-game menu selection"@
    }

    fn activate(button: IngameMenuButton) -> (request: Activation<PauseState>) {
        match button {
            IngameMenuButton::Resume => Activation::Transition(PauseState::Running),
            IngameMenuButton::Quit => Activation::Exit,
        }
    }

    fn selected(selection: &MenuSelection) -> (result: Result<IngameMenuButton, Error>) {
        IngameMenuButton::try_from(selection)
    }
}

} // verus!
