//! The button catalogs: for each menu a closed, ordered set of buttons, each
//! with a place counted from 0 and a label.

use crate::components::menu::MenuSelection;
use crate::error::{Error, ErrorLevel};
use vstd::prelude::*;
use vstd::string::StringExecFns;

verus! {

/// A button that knows its place in its menu.
pub trait ButtonIndex {
    /// The button's place in its menu, counted from 0.
    spec fn ordinal(&self) -> nat;

    /// The button's place in its menu, counted from 0.
    fn index(&self) -> (index: usize)
        ensures
            index == self.ordinal(),
    ;
}

/// A kind of button that can list all its buttons.
pub trait ButtonValues: ButtonIndex + Sized {
    /// Every button of this kind, in the order of their places.
    spec fn catalog() -> Seq<Self>;

    /// The catalog is not empty, each button stands at its own place, and
    /// there is no button outside the catalog.
    proof fn catalog_is_ordered()
        ensures
            Self::catalog().len() >= 1,
            forall|i: int|
                0 <= i < Self::catalog().len() ==> (#[trigger] Self::catalog()[i]).ordinal() == i,
            forall|button: Self|
                (#[trigger] button.ordinal()) < Self::catalog().len() && Self::catalog()[button.ordinal() as int]
                    == button,
    ;

    /// Every button of this kind, in the order of their places.
    fn values() -> (values: Vec<Self>)
        ensures
            values@ == Self::catalog(),
    ;
}

/// A button that has a text to show.
pub trait ButtonLabel {
    /// The text on the button.
    spec fn label(&self) -> Seq<char>;

    /// The text on the button.
    fn to_string(&self) -> (text: String)
        ensures
            text@ == self.label(),
    ;
}

/// What holds of the record that a conversion makes when the selection has no
/// button: it is of level `Error`, says `message`, names no cause and has a
/// random identifier.
pub open spec fn rejects(err: Error, message: Seq<char>) -> bool {
    &&& err.level == ErrorLevel::Error
    &&& err.message@ == message
    &&& err.source is None
    &&& crate::error::is_random_id(err.id)
}

/// The buttons of the start menu.
#[derive(Clone, Copy, Debug, PartialEq, Eq, Structural)]
pub enum StartMenuButton {
    Start,
    Quit,
}

impl StartMenuButton {
    /// The button that the selection points at. A selection that points at
    /// no button gives a record instead; the selection itself stays as it is.
    pub fn try_from(selection: &MenuSelection) -> (result: Result<StartMenuButton, Error>)
        ensures
            selection@ < Self::catalog().len() ==> result == Ok::<StartMenuButton, Error>(
                Self::catalog()[selection@ as int],
            ),
            selection@ >= Self::catalog().len() ==> result is Err && rejects(
                result->Err_0,
                "Invalid menu selection"@,
            ),
            result matches Ok(button) ==> button.ordinal() == selection@,
    {
        match selection.index() {
            0 => Ok(StartMenuButton::Start),
            1 => Ok(StartMenuButton::Quit),
            _ => Err(Error::new(ErrorLevel::Error, "Invalid menu selection", None)),
        }
    }
}

impl ButtonIndex for StartMenuButton {
    open spec fn ordinal(&self) -> nat {
        match self {
            StartMenuButton::Start => 0,
            StartMenuButton::Quit => 1,
        }
    }

    fn index(&self) -> (index: usize) {
        match self {
            StartMenuButton::Start => 0,
            StartMenuButton::Quit => 1,
        }
    }
}

impl ButtonValues for StartMenuButton {
    open spec fn catalog() -> Seq<Self> {
        seq![StartMenuButton::Start, StartMenuButton::Quit]
    }

    proof fn catalog_is_ordered() {
    }

    fn values() -> (values: Vec<Self>) {
        vec![StartMenuButton::Start, StartMenuButton::Quit]
    }
}

impl ButtonLabel for StartMenuButton {
    open spec fn label(&self) -> Seq<char> {
        match self {
            StartMenuButton::Start => "Start"@,
            StartMenuButton::Quit => "Quit"@,
        }
    }

    fn to_string(&self) -> (text: String) {
        match self {
            StartMenuButton::Start => String::from_str("Start"),
            StartMenuButton::Quit => String::from_str("Quit"),
        }
    }
}

/// The buttons of the pause menu.
#[derive(Clone, Copy, Debug, PartialEq, Eq, Structural)]
pub enum IngameMenuButton {
    Resume,
    Quit,
}

impl IngameMenuButton {
    /// The button that the selection points at. A selection that points at
    /// no button gives a record instead; the selection itself stays as it is.
    pub fn try_from(selection: &MenuSelection) -> (result: Result<IngameMenuButton, Error>)
        ensures
            selection@ < Self::catalog().len() ==> result == Ok::<IngameMenuButton, Error>(
                Self::catalog()[selection@ as int],
            ),
            selection@ >= Self::catalog().len() ==> result is Err && rejects(
                result->Err_0,
                "Invalid in-game menu selection"@,
            ),
            result matches Ok(button) ==> button.ordinal() == selection@,
    {
        match selection.index() {
            0 => Ok(IngameMenuButton::Resume),
            1 => Ok(IngameMenuButton::Quit),
            _ => Err(Error::new(ErrorLevel::Error, "Invalid in-game menu selection", None)),
        }
    }
}

impl ButtonIndex for IngameMenuButton {
    open spec fn ordinal(&self) -> nat {
        match self {
            IngameMenuButton::Resume => 0,
            IngameMenuButton::Quit => 1,
        }
    }

    fn index(&self) -> (index: usize) {
        match self {
            IngameMenuButton::Resume => 0,
            IngameMenuButton::Quit => 1,
        }
    }
}

impl ButtonValues for IngameMenuButton {
    open spec fn catalog() -> Seq<Self> {
        seq![IngameMenuButton::Resume, IngameMenuButton::Quit]
    }

    proof fn catalog_is_ordered() {
    }

    fn values() -> (values: Vec<Self>) {
        vec![IngameMenuButton::Resume, IngameMenuButton::Quit]
    }
}

impl ButtonLabel for IngameMenuButton {
    open spec fn label(&self) -> Seq<char> {
        match self {
            IngameMenuButton::Resume => "Resume"@,
            IngameMenuButton::Quit => "Quit"@,
        }
    }

    fn to_string(&self) -> (text: String) {
        match self {
            IngameMenuButton::Resume => String::from_str("Resume"),
            IngameMenuButton::Quit => String::from_str("Quit"),
        }
    }
}

} // verus!
