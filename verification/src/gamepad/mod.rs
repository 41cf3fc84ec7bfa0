//! Controller input: the normalized state of a DualShock 4, the decoder of its
//! Bluetooth input report, and the bookkeeping of controller events.

use vstd::prelude::*;

pub mod bt_hid;
pub mod ds4_report;

verus! {

/// D-pad direction. The DS4 report sends it as a hat switch (0 to 7 clockwise from
/// up, 8 for the center).
#[derive(Debug, Clone, Copy, PartialEq, Eq, Structural)]
pub enum Dpad {
    Neutral,
    Up,
    UpRight,
    Right,
    DownRight,
    Down,
    DownLeft,
    Left,
    UpLeft,
}

impl Default for Dpad {
    fn default() -> (d: Self)
        ensures
            d == Dpad::Neutral,
    {
        Dpad::Neutral
    }
}

/// The buttons of the controller; `true` while pressed.
#[derive(Debug, Clone, Copy, PartialEq, Eq, Structural)]
pub struct Buttons {
    pub cross: bool,
    pub circle: bool,
    pub square: bool,
    pub triangle: bool,
    pub dpad: Dpad,
    pub l1: bool,
    pub r1: bool,
    pub l2: bool,
    pub r2: bool,
    pub l3: bool,
    pub r3: bool,
    pub share: bool,
    pub options: bool,
}

/// No button pressed, D-pad centered.
pub open spec fn released_buttons() -> Buttons {
    Buttons {
        cross: false,
        circle: false,
        square: false,
        triangle: false,
        dpad: Dpad::Neutral,
        l1: false,
        r1: false,
        l2: false,
        r2: false,
        l3: false,
        r3: false,
        share: false,
        options: false,
    }
}

impl Default for Buttons {
    fn default() -> (b: Self)
        ensures
            b == released_buttons(),
    {
        Buttons {
            cross: false,
            circle: false,
            square: false,
            triangle: false,
            dpad: Dpad::Neutral,
            l1: false,
            r1: false,
            l2: false,
            r2: false,
            l3: false,
            r3: false,
            share: false,
            options: false,
        }
    }
}

/// The input of the controller.
///
/// Sticks range from -100 (full left / down) to 100 (full right / up). The L2/R2
/// analog values range from 0 (released) to 100 (fully pressed).
#[derive(Debug, Clone, Copy, PartialEq, Eq, Structural)]
pub struct GamepadState {
    pub left_stick_x: i8,
    pub left_stick_y: i8,
    pub right_stick_x: i8,
    pub right_stick_y: i8,
    pub l2_analog: u8,
    pub r2_analog: u8,
    pub buttons: Buttons,
}

/// Sticks centered, triggers and buttons released.
pub open spec fn neutral_state() -> GamepadState {
    GamepadState {
        left_stick_x: 0,
        left_stick_y: 0,
        right_stick_x: 0,
        right_stick_y: 0,
        l2_analog: 0,
        r2_analog: 0,
        buttons: released_buttons(),
    }
}

impl Default for GamepadState {
    fn default() -> (s: Self)
        ensures
            s == neutral_state(),
    {
        GamepadState {
            left_stick_x: 0,
            left_stick_y: 0,
            right_stick_x: 0,
            right_stick_y: 0,
            l2_analog: 0,
            r2_analog: 0,
            buttons: Buttons::default(),
        }
    }
}

/// A source of controller input.
pub trait Gamepad {
    /// Takes in what the controller sent since the last call and returns the current
    /// input.
    fn poll(&mut self) -> GamepadState;
}

} // verus!
