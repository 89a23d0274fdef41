//! The shift-register joystick. Writing bit 0 drives the strobe line;
//! while the strobe is high reads see the live button state, and the
//! falling edge latches that state into a shift register that reads then
//! consume one bit at a time.

use vstd::prelude::*;

verus! {

/// Button masks within the 8-bit controller state.
pub const BUTTON_A: u8 = 0x01;

pub const BUTTON_B: u8 = 0x02;

pub const BUTTON_SELECT: u8 = 0x04;

pub const BUTTON_START: u8 = 0x08;

pub const BUTTON_UP: u8 = 0x10;

pub const BUTTON_DOWN: u8 = 0x20;

pub const BUTTON_LEFT: u8 = 0x40;

pub const BUTTON_RIGHT: u8 = 0x80;

pub struct Controller {
    pub inputs: u8,
    pub read_state: u8,
    pub strobe: bool,
}

impl Controller {
    /// A controller with no buttons held and the strobe line high.
    pub fn new() -> (r: Controller)
        ensures
            r.inputs == 0,
            r.read_state == 0,
            r.strobe,
    {
        Controller { inputs: 0, read_state: 0, strobe: true }
    }

    /// Read one bit. While the strobe is high this is the live `A` button;
    /// once the strobe is low, each read shifts the latched state right
    /// and returns its lowest bit (A, B, Select, Start, Up, Down, Left,
    /// Right in that order, then zeros).
    pub fn read(&mut self) -> (r: u8)
        ensures
            final(self).inputs == old(self).inputs,
            final(self).strobe == old(self).strobe,
            old(self).strobe ==> r == (old(self).inputs & 1) as u8 && final(self).read_state
                == old(self).read_state,
            !old(self).strobe ==> r == (old(self).read_state & 1) as u8 && final(self).read_state == (old(self).read_state >> 1) as u8,
    {
        if self.strobe {
            self.inputs & 1
        } else {
            let bit = self.read_state & 1;
            self.read_state = self.read_state >> 1;
            bit
        }
    }

    /// Drive the strobe line with bit 0 of the written value. The falling
    /// edge latches the current button state into the shift register.
    pub fn write(&mut self, value: u8)
        ensures
            final(self).inputs == old(self).inputs,
            final(self).strobe == (value & 1 != 0),
            old(self).strobe && value & 1 == 0 ==> final(self).read_state == old(self).inputs,
            !(old(self).strobe && value & 1 == 0) ==> final(self).read_state == old(self).read_state,
    {
        let new_strobe = value & 1 != 0;
        if self.strobe && !new_strobe {
            self.read_state = self.inputs;
        }
        self.strobe = new_strobe;
    }

    /// Release every button.
    pub fn clear(&mut self)
        ensures
            final(self).inputs == 0,
            final(self).read_state == old(self).read_state,
            final(self).strobe == old(self).strobe,
    {
        self.inputs = 0;
    }

    /// Press the buttons named by `input`.
    pub fn input(&mut self, input: u8)
        ensures
            final(self).inputs == (old(self).inputs | input) as u8,
            final(self).read_state == old(self).read_state,
            final(self).strobe == old(self).strobe,
    {
        self.inputs = self.inputs | input;
    }

    /// Release the buttons named by `input`.
    pub fn remove_input(&mut self, input: u8)
        ensures
            final(self).inputs == (old(self).inputs & !input) as u8,
            final(self).read_state == old(self).read_state,
            final(self).strobe == old(self).strobe,
    {
        self.inputs = self.inputs & !input;
    }
}

/// A fresh controller in its power-on state.
pub fn make_controller() -> (r: Controller)
    ensures
        r.inputs == 0,
        r.read_state == 0,
        r.strobe,
{
    Controller::new()
}

} // verus!
