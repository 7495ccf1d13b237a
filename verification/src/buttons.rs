//! The eight buttons and their JOYP register view.
//!
//! The host owns the physical input; the core keeps a last-writer-wins
//! snapshot of the eight states and renders the JOYP low nibble from it on
//! demand.  In the register, 0 means pressed and 1 means released.

use vstd::prelude::*;

verus! {

/// The state of one button.
#[derive(Clone, Copy, Debug, PartialEq, Eq, Structural)]
pub enum ButtonState {
    Released,
    Pressed,
}

impl ButtonState {
    pub fn of_bool(pressed: bool) -> (r: ButtonState)
        ensures
            r == (if pressed {
                ButtonState::Pressed
            } else {
                ButtonState::Released
            }),
    {
        if pressed {
            ButtonState::Pressed
        } else {
            ButtonState::Released
        }
    }

    pub fn is_pressed(self) -> (r: bool)
        ensures
            r == (self is Pressed),
    {
        match self {
            ButtonState::Pressed => true,
            ButtonState::Released => false,
        }
    }

    pub fn is_released(self) -> (r: bool)
        ensures
            r == (self is Released),
    {
        match self {
            ButtonState::Pressed => false,
            ButtonState::Released => true,
        }
    }
}

/// The snapshot of all eight buttons.
#[derive(Clone, Copy, Debug, PartialEq, Eq, Structural)]
pub struct Buttons {
    pub up: ButtonState,
    pub down: ButtonState,
    pub left: ButtonState,
    pub right: ButtonState,
    pub start: ButtonState,
    pub select: ButtonState,
    pub a: ButtonState,
    pub b: ButtonState,
}

impl Buttons {
    pub fn new() -> (r: Buttons)
        ensures
            r == Buttons::all_released(),
    {
        Buttons {
            up: ButtonState::Released,
            down: ButtonState::Released,
            left: ButtonState::Released,
            right: ButtonState::Released,
            start: ButtonState::Released,
            select: ButtonState::Released,
            a: ButtonState::Released,
            b: ButtonState::Released,
        }
    }

    pub open spec fn all_released() -> Buttons {
        Buttons {
            up: ButtonState::Released,
            down: ButtonState::Released,
            left: ButtonState::Released,
            right: ButtonState::Released,
            start: ButtonState::Released,
            select: ButtonState::Released,
            a: ButtonState::Released,
            b: ButtonState::Released,
        }
    }

    /// The JOYP low nibble for the two select bits `mode` (bits 5,4 of the
    /// register, shifted down): 0b10 selects the direction nibble, 0b01 the
    /// action nibble, anything else reads as all-released.  A clear bit
    /// means pressed.
    pub open spec fn joyp_nibble(self, mode: u8) -> u8 {
        if mode == 2 {
            (((if self.down is Released {
                8int
            } else {
                0int
            }) + (if self.up is Released {
                4int
            } else {
                0int
            }) + (if self.left is Released {
                2int
            } else {
                0int
            }) + (if self.right is Released {
                1int
            } else {
                0int
            })) as u8)
        } else if mode == 1 {
            (((if self.start is Released {
                8int
            } else {
                0int
            }) + (if self.select is Released {
                4int
            } else {
                0int
            }) + (if self.b is Released {
                2int
            } else {
                0int
            }) + (if self.a is Released {
                1int
            } else {
                0int
            })) as u8)
        } else {
            0x0f
        }
    }

    /// Renders the JOYP low nibble for the select code `mode`.
    pub fn as_joyp(&self, mode: u8) -> (r: u8)
        ensures
            r == self.joyp_nibble(mode),
            r <= 0x0f,
    {
        match mode {
            2 => {
                let mut r: u8 = 0;
                if self.down.is_released() {
                    r = r + 8;
                }
                if self.up.is_released() {
                    r = r + 4;
                }
                if self.left.is_released() {
                    r = r + 2;
                }
                if self.right.is_released() {
                    r = r + 1;
                }
                r
            },
            1 => {
                let mut r: u8 = 0;
                if self.start.is_released() {
                    r = r + 8;
                }
                if self.select.is_released() {
                    r = r + 4;
                }
                if self.b.is_released() {
                    r = r + 2;
                }
                if self.a.is_released() {
                    r = r + 1;
                }
                r
            },
            _ => 0x0f,
        }
    }
}

} // verus!
