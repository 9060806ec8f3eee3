use bevy::input::keyboard::KeyCode;
use bevy::input::ButtonInput;
use dorian::input::Key;
use dorian::resources::{AppState, PauseState};
use dorian::systems::menu::pause_toggle;
use dorian::systems::player::{player_direction, player_movement, Direction};
use dorian::systems::schedule::{runs, System};

fn down(codes: &[KeyCode]) -> ButtonInput<KeyCode> {
    let mut keys = ButtonInput::default();
    for code in codes {
        keys.press(*code);
    }
    keys
}

#[test]
fn the_application_starts_in_its_menu_and_running() {
    assert_eq!(AppState::default(), AppState::Menu);
    assert_eq!(PauseState::default(), PauseState::Running);
}

#[test]
fn toggle_gives_the_other_pause_mode() {
    assert_eq!(PauseState::Running.toggle(), PauseState::Paused);
    assert_eq!(PauseState::Paused.toggle(), PauseState::Running);
    assert_eq!(PauseState::Running.toggle().toggle(), PauseState::Running);
    assert_eq!(PauseState::Paused.toggle().toggle(), PauseState::Paused);
}

#[test]
fn escape_toggles_the_pause_mode() {
    let keys = down(&[KeyCode::Escape]);
    assert_eq!(pause_toggle(&keys, PauseState::Running), Some(PauseState::Paused));
    assert_eq!(pause_toggle(&keys, PauseState::Paused), Some(PauseState::Running));
}

#[test]
fn without_escape_the_pause_mode_stays() {
    for keys in [
        down(&[]),
        down(&[KeyCode::Enter]),
        down(&[KeyCode::KeyW, KeyCode::Space]),
    ] {
        assert_eq!(pause_toggle(&keys, PauseState::Running), None);
        assert_eq!(pause_toggle(&keys, PauseState::Paused), None);
    }
}

#[test]
fn a_held_escape_toggles_once() {
    let mut keys = down(&[KeyCode::Escape]);
    assert_eq!(pause_toggle(&keys, PauseState::Running), Some(PauseState::Paused));
    keys.clear();
    assert!(keys.pressed(KeyCode::Escape));
    assert_eq!(pause_toggle(&keys, PauseState::Paused), None);
    keys.release(KeyCode::Escape);
    keys.clear();
    assert_eq!(pause_toggle(&keys, PauseState::Paused), None);
    keys.press(KeyCode::Escape);
    assert_eq!(pause_toggle(&keys, PauseState::Paused), Some(PauseState::Running));
}

#[test]
fn two_presses_of_escape_lead_back() {
    for start in [PauseState::Running, PauseState::Paused] {
        let mut pause = start;
        let mut seen = Vec::new();
        for _ in 0..4 {
            let keys = down(&[KeyCode::Escape]);
            pause = pause_toggle(&keys, pause).expect("a pressed key asks for a mode");
            seen.push(pause);
        }
        assert_eq!(seen, vec![start.toggle(), start, start.toggle(), start]);
    }
}

#[test]
fn the_modes_gate_the_systems() {
    let menu = AppState::Menu;
    let game = AppState::InGame;
    let running = PauseState::Running;
    let paused = PauseState::Paused;
    let table = [
        (System::StartMenu, [true, true, false, false]),
        (System::PauseToggle, [false, false, true, true]),
        (System::IngameMenu, [false, false, false, true]),
        (System::GameTime, [false, false, true, false]),
        (System::Player, [false, false, true, false]),
    ];
    for (system, expected) in table {
        assert_eq!(runs(system, menu, running), expected[0]);
        assert_eq!(runs(system, menu, paused), expected[1]);
        assert_eq!(runs(system, game, running), expected[2]);
        assert_eq!(runs(system, game, paused), expected[3]);
    }
}

#[test]
fn a_movement_key_gives_a_step_along_one_axis() {
    assert_eq!(player_direction(Some(Key::KeyW)), Direction { x: 0, y: 1 });
    assert_eq!(player_direction(Some(Key::ArrowUp)), Direction { x: 0, y: 1 });
    assert_eq!(player_direction(Some(Key::KeyS)), Direction { x: 0, y: -1 });
    assert_eq!(player_direction(Some(Key::ArrowDown)), Direction { x: 0, y: -1 });
    assert_eq!(player_direction(Some(Key::KeyA)), Direction { x: -1, y: 0 });
    assert_eq!(player_direction(Some(Key::ArrowLeft)), Direction { x: -1, y: 0 });
    assert_eq!(player_direction(Some(Key::KeyD)), Direction { x: 1, y: 0 });
    assert_eq!(player_direction(Some(Key::ArrowRight)), Direction { x: 1, y: 0 });
}

#[test]
fn no_movement_key_gives_no_step() {
    for key in [
        None,
        Some(Key::Enter),
        Some(Key::NumpadEnter),
        Some(Key::Escape),
        Some(Key::Other),
    ] {
        let direction = player_direction(key);
        assert_eq!(direction, Direction { x: 0, y: 0 });
        assert!(direction.at_rest());
    }
    assert!(!player_direction(Some(Key::KeyD)).at_rest());
    assert!(!player_direction(Some(Key::ArrowDown)).at_rest());
}

#[test]
fn the_pressed_key_moves_the_player() {
    let table = [
        (KeyCode::KeyW, Direction { x: 0, y: 1 }),
        (KeyCode::ArrowUp, Direction { x: 0, y: 1 }),
        (KeyCode::KeyS, Direction { x: 0, y: -1 }),
        (KeyCode::ArrowDown, Direction { x: 0, y: -1 }),
        (KeyCode::KeyA, Direction { x: -1, y: 0 }),
        (KeyCode::ArrowLeft, Direction { x: -1, y: 0 }),
        (KeyCode::KeyD, Direction { x: 1, y: 0 }),
        (KeyCode::ArrowRight, Direction { x: 1, y: 0 }),
        (KeyCode::Enter, Direction { x: 0, y: 0 }),
        (KeyCode::NumpadEnter, Direction { x: 0, y: 0 }),
        (KeyCode::Escape, Direction { x: 0, y: 0 }),
        (KeyCode::Space, Direction { x: 0, y: 0 }),
        (KeyCode::KeyQ, Direction { x: 0, y: 0 }),
    ];
    for (code, expected) in table {
        assert_eq!(player_movement(&down(&[code])), expected);
    }
    assert_eq!(player_movement(&down(&[])), Direction { x: 0, y: 0 });
}

#[test]
fn a_released_key_moves_the_player_no_more() {
    let mut keys = down(&[KeyCode::KeyD]);
    assert_eq!(player_movement(&keys), Direction { x: 1, y: 0 });
    keys.clear();
    assert_eq!(player_movement(&keys), Direction { x: 1, y: 0 });
    keys.release(KeyCode::KeyD);
    assert_eq!(player_movement(&keys), Direction { x: 0, y: 0 });
}

#[test]
fn two_keys_never_move_the_player_along_both_axes() {
    let keys = down(&[KeyCode::KeyW, KeyCode::KeyD]);
    let direction = player_movement(&keys);
    assert!(direction == Direction { x: 0, y: 1 } || direction == Direction { x: 1, y: 0 });
    let keys = down(&[KeyCode::ArrowLeft, KeyCode::ArrowDown, KeyCode::ArrowUp]);
    let direction = player_movement(&keys);
    assert_eq!(direction.x.abs() + direction.y.abs(), 1);
}

#[test]
fn a_step_moves_by_speed_times_time_along_its_axis() {
    let speed: f32 = 5.0;
    let elapsed: f32 = 0.25;
    let mut position: (f32, f32) = (1.0, -2.0);
    let direction = player_movement(&down(&[KeyCode::ArrowRight]));
    position.0 += f32::from(direction.x) * speed * elapsed;
    position.1 += f32::from(direction.y) * speed * elapsed;
    assert_eq!(position, (2.25, -2.0));
    let direction = player_movement(&down(&[]));
    position.0 += f32::from(direction.x) * speed * elapsed;
    position.1 += f32::from(direction.y) * speed * elapsed;
    assert_eq!(position, (2.25, -2.0));
}
