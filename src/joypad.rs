use vstd::prelude::*;

use crate::flags::{set_bits, with_bits};

verus! {

/// The controller's buttons; each has one bit of the button byte, A lowest.
#[derive(Clone, Copy, Debug, PartialEq, Eq, Structural)]
pub enum JoypadButton {
    A,
    B,
    Select,
    Start,
    Up,
    Down,
    Left,
    Right,
}

impl JoypadButton {
    pub open spec fn bit(self) -> u8 {
        match self {
            JoypadButton::A => 0b0000_0001,
            JoypadButton::B => 0b0000_0010,
            JoypadButton::Select => 0b0000_0100,
            JoypadButton::Start => 0b0000_1000,
            JoypadButton::Up => 0b0001_0000,
            JoypadButton::Down => 0b0010_0000,
            JoypadButton::Left => 0b0100_0000,
            JoypadButton::Right => 0b1000_0000,
        }
    }

    pub fn bits(&self) -> (r: u8)
        ensures
            r == self.bit(),
    {
        match self {
            JoypadButton::A => 0b0000_0001,
            JoypadButton::B => 0b0000_0010,
            JoypadButton::Select => 0b0000_0100,
            JoypadButton::Start => 0b0000_1000,
            JoypadButton::Up => 0b0001_0000,
            JoypadButton::Down => 0b0010_0000,
            JoypadButton::Left => 0b0100_0000,
            JoypadButton::Right => 0b1000_0000,
        }
    }
}

/// A standard controller, read one button at a time through $4016.
#[derive(Clone, Copy, Debug, PartialEq, Eq, Structural)]
pub struct Joypad {
    pub strobe_status: bool,
    pub button_status: u8,
    pub button_index: u8,
}

/// A read of $4016: the byte returned and the controller after it.
pub open spec fn joypad_read_spec(j: Joypad) -> (Joypad, u8) {
    if j.button_index > 7 {
        (j, 1)
    } else {
        (
            if j.strobe_status {
                j
            } else {
                Joypad { button_index: (j.button_index + 1) as u8, ..j }
            },
            (j.button_status >> j.button_index) & 1,
        )
    }
}

/// A write of `value` to $4016: bit 0 is the strobe, and a high strobe
/// rewinds to button A.
pub open spec fn joypad_write_spec(j: Joypad, value: u8) -> Joypad {
    let strobe = value & 1 == 1;
    Joypad {
        strobe_status: strobe,
        button_index: if strobe {
            0
        } else {
            j.button_index
        },
        ..j
    }
}

impl Joypad {
    pub open spec fn new_spec() -> Joypad {
        Joypad { strobe_status: false, button_status: 0, button_index: 0 }
    }

    pub fn new() -> (r: Self)
        ensures
            r == Joypad::new_spec(),
    {
        Joypad { strobe_status: false, button_status: 0, button_index: 0 }
    }

    pub fn read(&mut self) -> (r: u8)
        ensures
            (*final(self), r) == joypad_read_spec(*old(self)),
    {
        if self.button_index > 7 {
            return 1;
        }
        let result = (self.button_status >> self.button_index) & 1;
        if !self.strobe_status {
            self.button_index = self.button_index + 1;
        }
        result
    }

    pub fn write(&mut self, value: u8)
        ensures
            *final(self) == joypad_write_spec(*old(self), value),
    {
        self.strobe_status = value & 0x01 == 1;
        if self.strobe_status {
            self.button_index = 0;
        }
    }

    pub fn set_pressed(&mut self, button: JoypadButton, pressed: bool)
        ensures
            *final(self) == (Joypad {
                button_status: with_bits(old(self).button_status, button.bit(), pressed),
                ..*old(self)
            }),
    {
        self.button_status = set_bits(self.button_status, button.bits(), pressed);
    }
}

} // verus!
