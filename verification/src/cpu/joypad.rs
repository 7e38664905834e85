//! The standard controller: eight buttons read out one bit at a time.
use vstd::prelude::*;

verus! {

/// The set of buttons held down, one bit each, `A` in bit 0 and `Right` in bit 7.
#[derive(Debug, Eq, PartialEq, Structural, Clone, Copy)]
pub struct Buttons {
    pub bits: u8,
}

impl Buttons {
    pub const BUTTON_A: u8 = 0x01;

    pub const BUTTON_B: u8 = 0x02;

    pub const SELECT: u8 = 0x04;

    pub const START: u8 = 0x08;

    pub const UP: u8 = 0x10;

    pub const DOWN: u8 = 0x20;

    pub const LEFT: u8 = 0x40;

    pub const RIGHT: u8 = 0x80;

    /// No button held.
    pub fn empty() -> (buttons: Self)
        ensures
            buttons.bits == 0,
    {
        Buttons { bits: 0 }
    }

    /// The set as a byte.
    pub fn bits(&self) -> (bits: u8)
        ensures
            bits == self.bits,
    {
        self.bits
    }

    /// Presses the buttons of `mask`.
    pub fn insert(&mut self, mask: u8)
        ensures
            final(self).bits == old(self).bits | mask,
    {
        self.bits = self.bits | mask;
    }

    /// Releases the buttons of `mask`.
    pub fn remove(&mut self, mask: u8)
        ensures
            final(self).bits == old(self).bits & !mask,
    {
        self.bits = self.bits & !mask;
    }
}

/// A controller port.
#[derive(Debug, Eq, PartialEq, Structural, Clone, Copy)]
pub struct Joypad {
    /// While set, reads keep returning button `A`.
    pub strobe: bool,
    /// The button that the next read reports; 8 once all have been read.
    pub button_index: u8,
    pub buttons: Buttons,
}

impl Joypad {
    /// The read-out position is one of the eight buttons, or just behind them.
    pub open spec fn wf(self) -> bool {
        self.button_index <= 8
    }

    /// The port after a write of `data`: bit 0 is the strobe, and a set strobe
    /// rewinds the read-out to button `A`.
    pub open spec fn written(self, data: u8) -> Joypad {
        let strobe = data & 1 == 1;
        Joypad {
            strobe,
            button_index: if strobe {
                0
            } else {
                self.button_index
            },
            buttons: self.buttons,
        }
    }

    /// The bit that a read returns: the state of the current button, and 1 once
    /// all eight have been read.
    pub open spec fn read_bit(self) -> u8 {
        if self.button_index > 7 {
            1
        } else {
            (self.buttons.bits & (1u8 << self.button_index)) >> self.button_index
        }
    }

    /// The port after a read: the read-out moves on unless the strobe holds it.
    pub open spec fn after_read(self) -> Joypad {
        if self.button_index > 7 || self.strobe {
            self
        } else {
            Joypad { button_index: (self.button_index + 1) as u8, ..self }
        }
    }

    /// Writes the strobe register.
    pub fn write(&mut self, data: u8)
        ensures
            *final(self) == old(self).written(data),
            old(self).wf() ==> final(self).wf(),
    {
        self.strobe = data & 1 == 1;
        if self.strobe {
            self.button_index = 0;
        }
    }

    /// Reads the next button bit.
    pub fn read(&mut self) -> (bit: u8)
        requires
            old(self).wf(),
        ensures
            bit == old(self).read_bit(),
            *final(self) == old(self).after_read(),
            final(self).wf(),
    {
        if self.button_index > 7 {
            return 1;
        }
        let response: u8 = (self.buttons.bits & (1u8 << self.button_index)) >> self.button_index;
        if !self.strobe {
            self.button_index += 1;
        }
        response
    }
}

impl Default for Joypad {
    fn default() -> (joypad: Self)
        ensures
            joypad == (Joypad { strobe: false, button_index: 0, buttons: Buttons { bits: 0 } }),
    {
        Self { strobe: false, button_index: 0, buttons: Buttons::empty() }
    }
}

} // verus!
