use dorian::components::button::{
    ButtonIndex, ButtonLabel, ButtonValues, IngameMenuButton, StartMenuButton,
};
use dorian::components::menu::MenuSelection;
use dorian::error::ErrorLevel;

#[test]
fn selection_starts_at_the_first_place() {
    let selection = MenuSelection::default();
    assert_eq!(selection.index(), 0);
}

#[test]
fn set_index_stores_any_place() {
    let mut selection = MenuSelection::default();
    selection.set_index(1);
    assert_eq!(selection.index(), 1);
    selection.set_index(7);
    assert_eq!(selection.index(), 7);
    selection.set_index(usize::MAX);
    assert_eq!(selection.index(), usize::MAX);
    selection.set_index(0);
    assert_eq!(selection.index(), 0);
}

#[test]
fn navigate_up_stays_at_the_first_place() {
    let mut selection = MenuSelection::default();
    selection.navigate_up();
    assert_eq!(selection.index(), 0);
    selection.set_index(3);
    selection.navigate_up();
    assert_eq!(selection.index(), 2);
    selection.navigate_up();
    selection.navigate_up();
    assert_eq!(selection.index(), 0);
    selection.navigate_up();
    assert_eq!(selection.index(), 0);
}

#[test]
fn navigate_down_stays_at_the_last_place() {
    for count in 1..6usize {
        let mut selection = MenuSelection::default();
        for step in 1..count {
            selection.navigate_down(count);
            assert_eq!(selection.index(), step);
        }
        assert_eq!(selection.index(), count - 1);
        selection.navigate_down(count);
        assert_eq!(selection.index(), count - 1);
    }
}

#[test]
fn navigate_down_comes_back_from_beyond_the_menu() {
    let mut selection = MenuSelection::default();
    selection.set_index(9);
    selection.navigate_down(2);
    assert_eq!(selection.index(), 1);
    selection.set_index(usize::MAX);
    selection.navigate_down(2);
    assert_eq!(selection.index(), 1);
    selection.set_index(usize::MAX);
    selection.navigate_down(usize::MAX);
    assert_eq!(selection.index(), usize::MAX - 1);
}

#[test]
fn navigate_down_in_a_menu_without_buttons() {
    let mut selection = MenuSelection::default();
    selection.navigate_down(0);
    assert_eq!(selection.index(), 0);
    selection.set_index(4);
    selection.navigate_down(0);
    assert_eq!(selection.index(), 0);
}

#[test]
fn start_menu_buttons_have_their_places() {
    assert_eq!(StartMenuButton::Start.index(), 0);
    assert_eq!(StartMenuButton::Quit.index(), 1);
    assert_eq!(
        StartMenuButton::values(),
        vec![StartMenuButton::Start, StartMenuButton::Quit]
    );
}

#[test]
fn ingame_menu_buttons_have_their_places() {
    assert_eq!(IngameMenuButton::Resume.index(), 0);
    assert_eq!(IngameMenuButton::Quit.index(), 1);
    assert_eq!(
        IngameMenuButton::values(),
        vec![IngameMenuButton::Resume, IngameMenuButton::Quit]
    );
}

#[test]
fn catalogs_are_ordered_by_place() {
    for (place, button) in StartMenuButton::values().into_iter().enumerate() {
        assert_eq!(button.index(), place);
    }
    for (place, button) in IngameMenuButton::values().into_iter().enumerate() {
        assert_eq!(button.index(), place);
    }
}

#[test]
fn buttons_have_their_labels() {
    assert_eq!(StartMenuButton::Start.to_string(), "Start");
    assert_eq!(StartMenuButton::Quit.to_string(), "Quit");
    assert_eq!(IngameMenuButton::Resume.to_string(), "Resume");
    assert_eq!(IngameMenuButton::Quit.to_string(), "Quit");
}

#[test]
fn a_place_in_the_start_menu_gives_its_button_back() {
    let mut selection = MenuSelection::default();
    for place in 0..StartMenuButton::values().len() {
        selection.set_index(place);
        let button = StartMenuButton::try_from(&selection).expect("a place inside the menu");
        assert_eq!(button.index(), place);
        assert_eq!(button, StartMenuButton::values()[place]);
    }
    selection.set_index(0);
    assert_eq!(StartMenuButton::try_from(&selection).unwrap(), StartMenuButton::Start);
    selection.set_index(1);
    assert_eq!(StartMenuButton::try_from(&selection).unwrap(), StartMenuButton::Quit);
}

#[test]
fn a_place_in_the_ingame_menu_gives_its_button_back() {
    let mut selection = MenuSelection::default();
    for place in 0..IngameMenuButton::values().len() {
        selection.set_index(place);
        let button = IngameMenuButton::try_from(&selection).expect("a place inside the menu");
        assert_eq!(button.index(), place);
    }
    selection.set_index(0);
    assert_eq!(IngameMenuButton::try_from(&selection).unwrap(), IngameMenuButton::Resume);
    selection.set_index(1);
    assert_eq!(IngameMenuButton::try_from(&selection).unwrap(), IngameMenuButton::Quit);
}

#[test]
fn a_place_outside_the_start_menu_gives_a_record() {
    for place in [2usize, 3, 100, usize::MAX] {
        let mut selection = MenuSelection::default();
        selection.set_index(place);
        let err = StartMenuButton::try_from(&selection).expect_err("a place outside the menu");
        assert_eq!(err.level, ErrorLevel::Error);
        assert_eq!(err.message, "Invalid menu selection");
        assert_eq!(err.source, None);
        assert_eq!(selection.index(), place);
    }
}

#[test]
fn a_place_outside_the_ingame_menu_gives_a_record() {
    for place in [2usize, 3, 100, usize::MAX] {
        let mut selection = MenuSelection::default();
        selection.set_index(place);
        let err = IngameMenuButton::try_from(&selection).expect_err("a place outside the menu");
        assert_eq!(err.level, ErrorLevel::Error);
        assert_eq!(err.message, "Invalid in-game menu selection");
        assert_eq!(err.source, None);
        assert_eq!(selection.index(), place);
    }
}
