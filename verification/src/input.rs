//! The abstract control signals that the game reads, and how the buttons
//! of the arcade cabinet set them.

use vstd::prelude::*;

verus! {

/// Which controls are held down.
#[derive(Clone, Copy, Debug, PartialEq, Eq, Structural)]
pub struct ButtonPress {
    pub select_pressed: bool,
    pub start_pressed: bool,
    pub main_control_pressed: bool,
    pub left_pressed: bool,
    pub right_pressed: bool,
    pub up_pressed: bool,
    pub down_pressed: bool,
}

/// The inputs of the arcade cabinet.
#[derive(Clone, Copy, Debug, PartialEq, Eq, Structural)]
pub enum ArcadeInput {
    JoyUp,
    JoyDown,
    JoyLeft,
    JoyRight,
    JoyButton,
    ButtonTop1,
    ButtonTop2,
    ButtonTop3,
    ButtonTop4,
    ButtonTop5,
    ButtonTop6,
    ButtonLeftSide,
    ButtonRightSide,
    ButtonFront1,
    ButtonFront2,
}

impl ButtonPress {
    /// No control is held down.
    pub open spec fn spec_released() -> ButtonPress {
        ButtonPress {
            select_pressed: false,
            start_pressed: false,
            main_control_pressed: false,
            left_pressed: false,
            right_pressed: false,
            up_pressed: false,
            down_pressed: false,
        }
    }

    /// The controls after an input of the cabinet was pressed or released.
    /// The joystick gives the four directions, its button the main
    /// control, and the two front buttons select and start; the other
    /// buttons set nothing.
    pub open spec fn spec_with_arcade_input(self, input: ArcadeInput, is_pressed: bool)
        -> ButtonPress {
        match input {
            ArcadeInput::ButtonFront1 => ButtonPress { select_pressed: is_pressed, ..self },
            ArcadeInput::ButtonFront2 => ButtonPress { start_pressed: is_pressed, ..self },
            ArcadeInput::JoyButton => ButtonPress { main_control_pressed: is_pressed, ..self },
            ArcadeInput::JoyUp => ButtonPress { up_pressed: is_pressed, ..self },
            ArcadeInput::JoyDown => ButtonPress { down_pressed: is_pressed, ..self },
            ArcadeInput::JoyLeft => ButtonPress { left_pressed: is_pressed, ..self },
            ArcadeInput::JoyRight => ButtonPress { right_pressed: is_pressed, ..self },
            _ => self,
        }
    }

    /// Records that an input of the cabinet was pressed or released.
    pub fn arcade_input(&mut self, input: ArcadeInput, is_pressed: bool)
        ensures
            *final(self) == old(self).spec_with_arcade_input(input, is_pressed),
    {
        match input {
            ArcadeInput::ButtonFront1 => {
                self.select_pressed = is_pressed;
            },
            ArcadeInput::ButtonFront2 => {
                self.start_pressed = is_pressed;
            },
            ArcadeInput::JoyButton => {
                self.main_control_pressed = is_pressed;
            },
            ArcadeInput::JoyUp => {
                self.up_pressed = is_pressed;
            },
            ArcadeInput::JoyDown => {
                self.down_pressed = is_pressed;
            },
            ArcadeInput::JoyLeft => {
                self.left_pressed = is_pressed;
            },
            ArcadeInput::JoyRight => {
                self.right_pressed = is_pressed;
            },
            _ => {},
        }
    }
}

impl Default for ButtonPress {
    fn default() -> (released: ButtonPress)
        ensures
            released == ButtonPress::spec_released(),
    {
        ButtonPress {
            select_pressed: false,
            start_pressed: false,
            main_control_pressed: false,
            left_pressed: false,
            right_pressed: false,
            up_pressed: false,
            down_pressed: false,
        }
    }
}

} // verus!
