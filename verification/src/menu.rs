//! The main menu: two buttons, the one that is selected, and what
//! pressing a control does.

use crate::input::ButtonPress;
use vstd::prelude::*;

verus! {

/// What the menu tells the rest of the game.
#[derive(Clone, Copy, Debug, PartialEq, Eq, Structural)]
pub enum MenuEvent {
    EnterMenu,
    BeginNewGame,
}

#[derive(Clone, Copy, Debug, PartialEq, Eq, Structural)]
pub enum MenuButton {
    NewGame,
    Exit,
}

/// What activating a button asks for.
#[derive(Clone, Copy, Debug, PartialEq, Eq, Structural)]
pub enum MenuAction {
    /// Raise [`MenuEvent::BeginNewGame`].
    BeginNewGame,
    /// Leave the program.
    Exit,
}

/// The menu after the controls changed.
#[derive(Clone, Copy, Debug, PartialEq, Eq, Structural)]
pub struct MenuOutcome {
    pub selected: Option<MenuButton>,
    pub action: Option<MenuAction>,
}

/// The button that the selection moves to: from "new game" to "exit", and
/// to "new game" from "exit" or from no selection.
pub open spec fn spec_select_next_button(selected: Option<MenuButton>) -> MenuButton {
    match selected {
        Some(MenuButton::NewGame) => MenuButton::Exit,
        _ => MenuButton::NewGame,
    }
}

pub open spec fn spec_action(button: MenuButton) -> MenuAction {
    match button {
        MenuButton::NewGame => MenuAction::BeginNewGame,
        MenuButton::Exit => MenuAction::Exit,
    }
}

/// What a change of the controls does to the menu. The main control
/// activates the selected button, if there is one; otherwise "up" or
/// "down" moves the selection to the next button.
pub open spec fn spec_button_press(pressed: ButtonPress, selected: Option<MenuButton>)
    -> MenuOutcome {
    if pressed.main_control_pressed {
        MenuOutcome {
            selected,
            action: match selected {
                Some(button) => Some(spec_action(button)),
                None => None,
            },
        }
    } else if pressed.up_pressed || pressed.down_pressed {
        MenuOutcome { selected: Some(spec_select_next_button(selected)), action: None }
    } else {
        MenuOutcome { selected, action: None }
    }
}

impl MenuButton {
    /// What activating this button asks for.
    pub fn action(&self) -> (action: MenuAction)
        ensures
            action == spec_action(*self),
    {
        match self {
            MenuButton::NewGame => MenuAction::BeginNewGame,
            MenuButton::Exit => MenuAction::Exit,
        }
    }
}

pub fn select_next_button(selected_button: Option<MenuButton>) -> (next: MenuButton)
    ensures
        next == spec_select_next_button(selected_button),
{
    match selected_button {
        Some(button) => {
            if button == MenuButton::NewGame {
                MenuButton::Exit
            } else {
                MenuButton::NewGame
            }
        },
        None => MenuButton::NewGame,
    }
}

pub fn button_press(pressed: &ButtonPress, selected_button: Option<MenuButton>) -> (outcome:
    MenuOutcome)
    ensures
        outcome == spec_button_press(*pressed, selected_button),
{
    if pressed.main_control_pressed {
        MenuOutcome {
            selected: selected_button,
            action: match selected_button {
                Some(button) => Some(button.action()),
                None => None,
            },
        }
    } else if pressed.up_pressed || pressed.down_pressed {
        MenuOutcome { selected: Some(select_next_button(selected_button)), action: None }
    } else {
        MenuOutcome { selected: selected_button, action: None }
    }
}

/// Moving the selection twice from a selected button comes back to it, and
/// the selection never rests on nothing once it has moved.
pub proof fn lemma_selection_alternates(selected: MenuButton)
    ensures
        spec_select_next_button(Some(spec_select_next_button(Some(selected)))) == selected,
        spec_select_next_button(Some(selected)) != selected,
{
}

} // verus!
