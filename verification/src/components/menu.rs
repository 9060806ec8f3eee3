//! The menu framework: the selection, and the contract that every menu meets.

use crate::components::button::{rejects, ButtonIndex, ButtonLabel, ButtonValues};
use crate::error::Error;
use crate::input::{first_pressed, pressed_keys, reads, Interaction, Key};
use bevy::input::keyboard::KeyCode;
use bevy::input::ButtonInput;
use vstd::prelude::*;

verus! {

/// The place of the highlighted button in the menu on screen, counted from 0.
///
/// Nothing is checked when a place is stored. A place that no button stands
/// at is found when the selection is turned into a button.
#[derive(Debug)]
pub struct MenuSelection(usize);

impl View for MenuSelection {
    type V = nat;

    closed spec fn view(&self) -> nat {
        self.0 as nat
    }
}

impl Default for MenuSelection {
    fn default() -> (selection: Self)
        ensures
            selection@ == 0,
    {
        MenuSelection(0)
    }
}

impl MenuSelection {
    /// The selected place.
    pub fn index(&self) -> (index: usize)
        ensures
            index == self@,
    {
        self.0
    }

    /// Stores `index` as the selected place, whatever it is.
    pub fn set_index(&mut self, index: usize)
        ensures
            final(self)@ == index,
    {
        self.0 = index;
    }

    /// Moves the selection one place up; at the first place it stays.
    pub fn navigate_up(&mut self)
        ensures
            final(self)@ == index_above(old(self)@),
    {
        let index = self.index().saturating_sub(1);
        self.set_index(index);
    }

    /// Moves the selection one place down in a menu of `count` buttons; at
    /// the last place it stays, and from beyond it comes back to the last.
    pub fn navigate_down(&mut self, count: usize)
        ensures
            final(self)@ == index_below(old(self)@, count as nat),
    {
        let last = count.saturating_sub(1);
        let index = if self.index() < last {
            self.index() + 1
        } else {
            last
        };
        self.set_index(index);
    }
}

/// The start menu: it is on screen while the application is in its menu mode.
#[derive(Debug, Default)]
pub struct StartMenu;

/// The pause menu: it is on screen while the game is paused.
#[derive(Debug, Default)]
pub struct IngameMenu;

/// What activating a button asks of the host runtime.
#[derive(Debug, PartialEq, Eq)]
pub enum Activation<S> {
    /// Bring the state machine that the menu belongs to into this state.
    Transition(S),
    /// End the application.
    Exit,
}

/// What one frame's key did to a menu.
#[derive(Debug)]
pub enum KeyEffect<S> {
    /// The selection went up or down, or stayed at the end it was at.
    Navigated,
    /// The selected button was activated, and asks this of the host runtime.
    Activated(Activation<S>),
    /// The selection pointed at no button: nothing was activated, and this
    /// record is to be reported.
    Rejected(Error),
    /// The frame had no key, or one the menu gives no meaning to.
    Ignored,
}

/// Which of its two colours a button shows.
#[derive(Clone, Copy, Debug, PartialEq, Eq, Structural)]
pub enum Highlight {
    Selected,
    Unselected,
}

/// One interactive node of a menu on screen: the button it stands for, the
/// text it shows and its colour.
#[derive(Debug)]
pub struct MenuNode<B> {
    pub button: B,
    pub label: String,
    pub highlight: Highlight,
}

/// Whether the key moves the selection up.
pub open spec fn moves_up(key: Option<Key>) -> bool {
    key == Some(Key::KeyW) || key == Some(Key::ArrowUp)
}

/// Whether the key moves the selection down.
pub open spec fn moves_down(key: Option<Key>) -> bool {
    key == Some(Key::KeyS) || key == Some(Key::ArrowDown)
}

/// Whether the key activates the selected button.
pub open spec fn confirms(key: Option<Key>) -> bool {
    key == Some(Key::Enter) || key == Some(Key::NumpadEnter)
}

/// The place above `index`; the first place is its own.
pub open spec fn index_above(index: nat) -> nat {
    if index == 0 {
        0
    } else {
        (index - 1) as nat
    }
}

/// The place below `index` in a menu of `count` buttons; below the last
/// place, and below every place beyond it, is the last place. A menu without
/// buttons has the first place only.
pub open spec fn index_below(index: nat, count: nat) -> nat {
    if index + 1 < count {
        index + 1
    } else if count == 0 {
        0
    } else {
        (count - 1) as nat
    }
}

/// The colour of the button at place `ordinal` while `selected` is the
/// selected place.
pub open spec fn highlight_of(selected: nat, ordinal: nat) -> Highlight {
    if selected == ordinal {
        Highlight::Selected
    } else {
        Highlight::Unselected
    }
}

/// Whether `effect` and the selection `after` are what `key` does to a menu
/// whose selection was `before`. The menu is given by its catalog, by what
/// each of its buttons asks for when activated, and by the message of the
/// record that it makes when the selection points at no button.
///
/// The first of these that fits decides. A key that moves up or down
/// navigates. A key that confirms leaves the selection alone and activates
/// the button at the selected place; where no button stands there, it makes
/// the record instead. Anything else is ignored and changes nothing.
pub open spec fn key_outcome<B, S>(
    key: Option<Key>,
    before: nat,
    after: nat,
    effect: KeyEffect<S>,
    catalog: Seq<B>,
    effect_of: spec_fn(B) -> Activation<S>,
    rejection: Seq<char>,
) -> bool {
    if moves_up(key) {
        effect is Navigated && after == index_above(before)
    } else if moves_down(key) {
        effect is Navigated && after == index_below(before, catalog.len())
    } else if confirms(key) {
        &&& after == before
        &&& before < catalog.len() ==> effect == KeyEffect::Activated(
            effect_of(catalog[before as int]),
        )
        &&& before >= catalog.len() ==> effect is Rejected && rejects(
            effect->Rejected_0,
            rejection,
        )
    } else {
        effect is Ignored && after == before
    }
}

/// The selected place after the pointer events of one frame, taken in order,
/// when it was `start` before: the place of the button hovered last, or
/// `start` if none was hovered.
pub open spec fn hovered<B: ButtonIndex>(events: Seq<(Interaction, B)>, start: nat) -> nat
    decreases events.len(),
{
    if events.len() == 0 {
        start
    } else if events.last().0 == Interaction::Hovered {
        events.last().1.ordinal()
    } else {
        hovered(events.drop_last(), start)
    }
}

/// The buttons that the pointer events of one frame press, in the order of
/// the events.
pub open spec fn pressed<B>(events: Seq<(Interaction, B)>) -> Seq<B>
    decreases events.len(),
{
    if events.len() == 0 {
        Seq::empty()
    } else if events.last().0 == Interaction::Pressed {
        pressed(events.drop_last()).push(events.last().1)
    } else {
        pressed(events.drop_last())
    }
}

/// Moving up from the first place leaves the selection at the first place,
/// moving down from the last place of a menu leaves it at the last place, and
/// a selection inside the menu stays inside it whichever way it moves.
pub proof fn lemma_navigation_saturates(index: nat, count: nat)
    requires
        count >= 1,
    ensures
        index_above(0) == 0,
        index_below((count - 1) as nat, count) == count - 1,
        index < count ==> index_above(index) < count && index_below(index, count) < count,
{
}

/// Every place of a catalog gives a button, and that button gives the place
/// back.
pub proof fn lemma_place_round_trips<B: ButtonValues>(index: nat)
    requires
        index < B::catalog().len(),
    ensures
        B::catalog()[index as int].ordinal() == index,
{
    B::catalog_is_ordered();
}

/// A hovered button takes the selection, whatever the selection was and
/// whatever came before in the frame.
pub proof fn lemma_hover_takes_selection<B: ButtonIndex>(
    events: Seq<(Interaction, B)>,
    button: B,
    start: nat,
)
    ensures
        hovered(events.push((Interaction::Hovered, button)), start) == button.ordinal(),
{
    assert(events.push((Interaction::Hovered, button)).last() == (Interaction::Hovered, button));
}

/// A pressed button leaves the selection as it is and comes last among the
/// pressed buttons; a node that the pointer left changes neither.
pub proof fn lemma_press_keeps_selection<B: ButtonIndex>(
    events: Seq<(Interaction, B)>,
    button: B,
    start: nat,
)
    ensures
        hovered(events.push((Interaction::Pressed, button)), start) == hovered(events, start),
        pressed(events.push((Interaction::Pressed, button))) == pressed(events).push(button),
        hovered(events.push((Interaction::Cleared, button)), start) == hovered(events, start),
        pressed(events.push((Interaction::Cleared, button))) == pressed(events),
        pressed(events.push((Interaction::Hovered, button))) == pressed(events),
{
    let press = events.push((Interaction::Pressed, button));
    assert(press.last() == (Interaction::Pressed, button));
    assert(press.drop_last() == events);
    let clear = events.push((Interaction::Cleared, button));
    assert(clear.last() == (Interaction::Cleared, button));
    assert(clear.drop_last() == events);
    let hover = events.push((Interaction::Hovered, button));
    assert(hover.last() == (Interaction::Hovered, button));
    assert(hover.drop_last() == events);
}

/// A selection inside the menu is still inside it after any key, and no key
/// makes a record then: a record can only come from a place that was stored
/// past the navigation.
pub proof fn lemma_keys_keep_selection_inside<B, S>(
    key: Option<Key>,
    before: nat,
    after: nat,
    effect: KeyEffect<S>,
    catalog: Seq<B>,
    effect_of: spec_fn(B) -> Activation<S>,
    rejection: Seq<char>,
)
    requires
        key_outcome(key, before, after, effect, catalog, effect_of, rejection),
        before < catalog.len(),
    ensures
        after < catalog.len(),
        !(effect is Rejected),
{
}

/// A selection inside the menu is still inside it after any pointer events.
pub proof fn lemma_pointer_keeps_selection_inside<B: ButtonValues>(
    events: Seq<(Interaction, B)>,
    start: nat,
)
    requires
        start < B::catalog().len(),
    ensures
        hovered(events, start) < B::catalog().len(),
    decreases events.len(),
{
    B::catalog_is_ordered();
    if events.len() > 0 && events.last().0 != Interaction::Hovered {
        lemma_pointer_keeps_selection_inside::<B>(events.drop_last(), start);
    }
}

/// While the selection is inside the menu, the nodes of a catalog show
/// exactly one highlighted button: the one at the selected place.
pub proof fn lemma_one_button_highlighted<B: ButtonValues>(selected: nat, place: nat)
    requires
        selected < B::catalog().len(),
        place < B::catalog().len(),
    ensures
        highlight_of(selected, B::catalog()[place as int].ordinal()) == Highlight::Selected
            <==> place == selected,
{
    B::catalog_is_ordered();
}

/// A menu: a catalog of buttons, a state machine that it can move, and what
/// each of its buttons does when activated.
pub trait Menu: Sized {
    /// The menu's buttons.
    type MenuButton: ButtonIndex + ButtonValues + ButtonLabel + Copy;

    /// The states of the state machine that the menu can move.
    type State;

    /// What activating `button` asks of the host runtime.
    spec fn effect(button: Self::MenuButton) -> Activation<Self::State>;

    /// The message of the record that is made when the selection points at
    /// no button.
    spec fn rejection() -> Seq<char>;

    /// What activating `button` asks of the host runtime.
    fn activate(button: Self::MenuButton) -> (request: Activation<Self::State>)
        ensures
            request == Self::effect(button),
    ;

    /// The button that the selection points at. A selection that points at
    /// no button gives a record instead; the selection itself stays as it is.
    fn selected(selection: &MenuSelection) -> (result: Result<Self::MenuButton, Error>)
        ensures
            selection@ < Self::MenuButton::catalog().len() ==> result == Ok::<
                Self::MenuButton,
                Error,
            >(Self::MenuButton::catalog()[selection@ as int]),
            selection@ >= Self::MenuButton::catalog().len() ==> result is Err && rejects(
                result->Err_0,
                Self::rejection(),
            ),
            result matches Ok(button) ==> button.ordinal() == selection@,
    ;

    /// Enters the menu: the selection goes to the first place, and the nodes
    /// to put on screen under one root are handed out, one for each button
    /// in the order of the catalog, each with its label and not highlighted.
    fn setup(selection: &mut MenuSelection) -> (nodes: Vec<MenuNode<Self::MenuButton>>)
        ensures
            final(selection)@ == 0,
            nodes.len() == Self::MenuButton::catalog().len(),
            forall|i: int|
                0 <= i < nodes.len() ==> {
                    &&& (#[trigger] nodes[i]).button == Self::MenuButton::catalog()[i]
                    &&& nodes[i].label@ == Self::MenuButton::catalog()[i].label()
                    &&& nodes[i].highlight == Highlight::Unselected
                },
    {
        selection.set_index(0);
        let buttons = Self::MenuButton::values();
        let mut nodes: Vec<MenuNode<Self::MenuButton>> = Vec::new();
        let mut i: usize = 0;
        while i < buttons.len()
            invariant
                i <= buttons.len(),
                buttons@ == Self::MenuButton::catalog(),
                selection@ == 0,
                nodes.len() == i,
                forall|k: int|
                    0 <= k < i ==> {
                        &&& (#[trigger] nodes[k]).button == buttons[k]
                        &&& nodes[k].label@ == buttons[k].label()
                        &&& nodes[k].highlight == Highlight::Unselected
                    },
            decreases buttons.len() - i,
        {
            let button = buttons[i];
            nodes.push(MenuNode { button, label: button.to_string(), highlight: Highlight::Unselected });
            i += 1;
        }
        nodes
    }

    /// Handles the one key of this frame, if there is one; the first of these
    /// that fits decides. `W` or the up arrow moves the selection up, and it
    /// stays at the first place. `S` or the down arrow moves it down, and it
    /// stays at the last place. `Enter`, on either pad, activates the button
    /// that the selection points at; where it points at none, a record is
    /// made and nothing is activated. Anything else is ignored.
    fn handle_key(key: Option<Key>, selection: &mut MenuSelection) -> (effect: KeyEffect<
        Self::State,
    >)
        ensures
            key_outcome(
                key,
                old(selection)@,
                final(selection)@,
                effect,
                Self::MenuButton::catalog(),
                |button: Self::MenuButton| Self::effect(button),
                Self::rejection(),
            ),
    {
        match key {
            Some(Key::KeyW) | Some(Key::ArrowUp) => {
                selection.navigate_up();
                KeyEffect::Navigated
            },
            Some(Key::KeyS) | Some(Key::ArrowDown) => {
                selection.navigate_down(Self::MenuButton::values().len());
                KeyEffect::Navigated
            },
            Some(Key::Enter) | Some(Key::NumpadEnter) => {
                match Self::selected(selection) {
                    Ok(button) => KeyEffect::Activated(Self::activate(button)),
                    Err(err) => KeyEffect::Rejected(err),
                }
            },
            _ => KeyEffect::Ignored,
        }
    }

    /// Handles the keyboard for this frame: reads one key from the engine's
    /// collection of pressed keys, whichever it gives first, and handles it
    /// as `handle_key` does. So only one thing happens in a frame, however
    /// many keys are down, and nothing happens where no key is down.
    fn keyboard_input(keys: &ButtonInput<KeyCode>, selection: &mut MenuSelection) -> (effect:
        KeyEffect<Self::State>)
        ensures
            exists|key: Option<Key>|
                #[trigger] reads(key, pressed_keys(*keys)) && key_outcome(
                    key,
                    old(selection)@,
                    final(selection)@,
                    effect,
                    Self::MenuButton::catalog(),
                    |button: Self::MenuButton| Self::effect(button),
                    Self::rejection(),
                ),
    {
        let key = first_pressed(keys);
        Self::handle_key(key, selection)
    }

    /// Handles the pointer events of this frame in order: one event for each
    /// node whose interaction changed. A hovered node takes the selection, a
    /// pressed node is activated whatever the selection is, and a node that
    /// the pointer left changes nothing. What the pressed buttons ask of the
    /// host runtime is handed out in the order of the events.
    fn mouse_input(
        interactions: &Vec<(Interaction, Self::MenuButton)>,
        selection: &mut MenuSelection,
    ) -> (requests: Vec<Activation<Self::State>>)
        ensures
            final(selection)@ == hovered(interactions@, old(selection)@),
            requests.len() == pressed(interactions@).len(),
            forall|i: int|
                0 <= i < requests.len() ==> #[trigger] requests[i] == Self::effect(
                    pressed(interactions@)[i],
                ),
    {
        let ghost start = selection@;
        let mut requests: Vec<Activation<Self::State>> = Vec::new();
        let mut i: usize = 0;
        while i < interactions.len()
            invariant
                i <= interactions.len(),
                selection@ == hovered(interactions@.take(i as int), start),
                requests.len() == pressed(interactions@.take(i as int)).len(),
                forall|k: int|
                    0 <= k < requests.len() ==> #[trigger] requests[k] == Self::effect(
                        pressed(interactions@.take(i as int))[k],
                    ),
            decreases interactions.len() - i,
        {
            let (interaction, button) = interactions[i];
            proof {
                let seen = interactions@.take(i + 1);
                assert(seen.drop_last() == interactions@.take(i as int));
                assert(seen.last() == interactions@[i as int]);
            }
            match interaction {
                Interaction::Pressed => {
                    requests.push(Self::activate(button));
                },
                Interaction::Hovered => {
                    selection.set_index(button.index());
                },
                Interaction::Cleared => {},
            }
            i += 1;
        }
        proof {
            assert(interactions@.take(i as int) == interactions@);
        }
        requests
    }

    /// The colour of the node of `button` under the given selection.
    fn highlight(selection: &MenuSelection, button: &Self::MenuButton) -> (highlight: Highlight)
        ensures
            highlight == highlight_of(selection@, button.ordinal()),
    {
        if selection.index() == button.index() {
            Highlight::Selected
        } else {
            Highlight::Unselected
        }
    }

    /// The colour of each node under the given selection, in the order of
    /// the nodes: the nodes of the selected button are highlighted and no
    /// other. It reads the selection and changes nothing, so doing it again
    /// gives the same colours.
    fn update_visuals(selection: &MenuSelection, buttons: &Vec<Self::MenuButton>) -> (highlights:
        Vec<Highlight>)
        ensures
            highlights.len() == buttons.len(),
            forall|i: int|
                0 <= i < buttons.len() ==> #[trigger] highlights[i] == highlight_of(
                    selection@,
                    buttons[i].ordinal(),
                ),
    {
        let mut highlights: Vec<Highlight> = Vec::new();
        let mut i: usize = 0;
        while i < buttons.len()
            invariant
                i <= buttons.len(),
                highlights.len() == i,
                forall|k: int|
                    0 <= k < i ==> #[trigger] highlights[k] == highlight_of(
                        selection@,
                        buttons[k].ordinal(),
                    ),
            decreases buttons.len() - i,
        {
            highlights.push(Self::highlight(selection, &buttons[i]));
            i += 1;
        }
        highlights
    }
}

} // verus!
