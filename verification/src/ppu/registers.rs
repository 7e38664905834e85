//! The registers of the picture processing unit.
use vstd::prelude::*;

verus! {

/// The VRAM address register: two bytes filled alternately, high byte first.
#[derive(Debug, Clone, Copy)]
pub struct AddressRegister {
    /// High byte, then low byte.
    pub value: (u8, u8),
    /// The next write fills the high byte.
    pub high_byte: bool,
}

impl AddressRegister {
    /// The address held: the two bytes as one number.
    pub open spec fn address(self) -> int {
        self.value.0 * 256 + self.value.1
    }

    /// The register holding `address`, which must fit in sixteen bits, with the latch unchanged.
    pub open spec fn with_address(self, address: int) -> AddressRegister {
        AddressRegister {
            value: ((address / 256) as u8, (address % 256) as u8),
            high_byte: self.high_byte,
        }
    }

    /// The register after a write of `data`: the byte that the latch points at
    /// is replaced, the address is cut down to fourteen bits, and the latch flips.
    pub open spec fn updated(self, data: u8) -> AddressRegister {
        let raw = if self.high_byte {
            data * 256 + self.value.1
        } else {
            self.value.0 * 256 + data
        };
        AddressRegister {
            value: (((raw % 0x4000) / 256) as u8, (raw % 256) as u8),
            high_byte: !self.high_byte,
        }
    }

    /// The register after the address moved on by `step`, cut down to fourteen bits.
    pub open spec fn incremented(self, step: u8) -> AddressRegister {
        self.with_address((self.address() + step) % 0x4000)
    }

    /// Writes one byte of the address.
    #[verifier::rlimit(30)]
    pub fn update(&mut self, data: u8)
        ensures
            *final(self) == old(self).updated(data),
            final(self).address() < 0x4000,
    {
        if self.high_byte {
            self.value.0 = data;
        } else {
            self.value.1 = data;
        }
        let masked: u16 = self.get() % 0x4000;
        self.set(masked);
        self.high_byte = !self.high_byte;
    }

    /// Replaces the address and leaves the latch alone.
    fn set(&mut self, value: u16)
        ensures
            *final(self) == old(self).with_address(value as int),
            final(self).address() == value,
    {
        self.value.0 = (value / 256) as u8;
        self.value.1 = (value % 256) as u8;
    }

    /// The address held.
    pub fn get(&self) -> (address: u16)
        ensures
            address == self.address(),
    {
        self.value.0 as u16 * 256 + self.value.1 as u16
    }

    /// Moves the address on by `value`.
    pub fn increment(&mut self, value: u8)
        ensures
            *final(self) == old(self).incremented(value),
            final(self).address() == (old(self).address() + value) % 0x4000,
            final(self).address() < 0x4000,
    {
        let sum: u32 = self.get() as u32 + value as u32;
        self.set((sum % 0x4000) as u16);
    }
}

impl Default for AddressRegister {
    fn default() -> (register: Self)
        ensures
            register == (AddressRegister { value: (0, 0), high_byte: true }),
    {
        AddressRegister { value: (0, 0), high_byte: true }
    }
}

/// The control register, `$2000`.
#[derive(Debug, Eq, PartialEq, Structural, Clone, Copy)]
pub struct ControlRegister {
    pub bits: u8,
}

impl ControlRegister {
    pub const NAMETABLE1: u8 = 0x01;

    pub const NAMETABLE2: u8 = 0x02;

    pub const VRAM_ADD_INCREMENT: u8 = 0x04;

    pub const SPRITE_PATTERN_ADDR: u8 = 0x08;

    pub const BACKGROUND_PATTERN_ADDR: u8 = 0x10;

    pub const SPRITE_SIZE: u8 = 0x20;

    pub const MASTER_SLAVE_SELECT: u8 = 0x40;

    pub const GENERATE_NMI: u8 = 0x80;

    /// All bits of `flag` are set.
    pub open spec fn has(self, flag: u8) -> bool {
        self.bits & flag == flag
    }

    /// How far the VRAM address moves after an access of the data port: a
    /// row of 32 with bit 2 set, else one byte.
    pub open spec fn address_step(self) -> u8 {
        if self.has(0x04) {
            32
        } else {
            1
        }
    }

    /// Start of the pattern table that bit `flag` selects.
    pub open spec fn pattern_base(self, flag: u8) -> u16 {
        if self.has(flag) {
            0x1000
        } else {
            0
        }
    }

    /// Tells whether all bits of `flag` are set.
    pub fn contains(&self, flag: u8) -> (r: bool)
        ensures
            r == self.has(flag),
    {
        self.bits & flag == flag
    }

    /// How far the VRAM address moves after an access of the data port.
    pub fn vram_addr_increment(&self) -> (step: u8)
        ensures
            step == self.address_step(),
    {
        if self.contains(ControlRegister::VRAM_ADD_INCREMENT) {
            32
        } else {
            1
        }
    }

    /// Replaces the register.
    pub fn update(&mut self, data: u8)
        ensures
            final(self).bits == data,
    {
        self.bits = data;
    }

    /// Start of the pattern table that backgrounds are drawn from.
    pub fn background_pattern_addr(&self) -> (base: u16)
        ensures
            base == self.pattern_base(0x10),
    {
        if self.contains(ControlRegister::BACKGROUND_PATTERN_ADDR) {
            0x1000
        } else {
            0
        }
    }

    /// Start of the pattern table that sprites are drawn from.
    pub fn sprite_pattern_addr(&self) -> (base: u16)
        ensures
            base == self.pattern_base(0x08),
    {
        if self.contains(ControlRegister::SPRITE_PATTERN_ADDR) {
            0x1000
        } else {
            0
        }
    }
}

impl Default for ControlRegister {
    fn default() -> (register: Self)
        ensures
            register.bits == 0,
    {
        ControlRegister { bits: 0 }
    }
}

/// The mask register, `$2001`.
#[derive(Debug, Eq, PartialEq, Structural, Clone, Copy)]
pub struct MaskRegister {
    pub bits: u8,
}

impl MaskRegister {
    pub const GREYSCALE: u8 = 0x01;

    pub const SHOW_LEFT_BACKGROUND: u8 = 0x02;

    pub const SHOW_LEFT_SPRITES: u8 = 0x04;

    pub const SHOW_BACKGROUND: u8 = 0x08;

    pub const SHOW_SPRITES: u8 = 0x10;

    pub const EMPHASIZE_RED: u8 = 0x20;

    pub const EMPHASIZE_GREEN: u8 = 0x40;

    pub const EMPHASIZE_BLUE: u8 = 0x80;

    /// Replaces the register.
    pub fn update(&mut self, data: u8)
        ensures
            final(self).bits == data,
    {
        self.bits = data;
    }
}

impl Default for MaskRegister {
    fn default() -> (register: Self)
        ensures
            register.bits == 0,
    {
        MaskRegister { bits: 0 }
    }
}

/// The status register, `$2002`.
#[derive(Debug, Eq, PartialEq, Structural, Clone, Copy)]
pub struct StatusRegister {
    pub bits: u8,
}

impl StatusRegister {
    pub const SPRITE_OVERFLOW: u8 = 0x20;

    pub const SPRITE_ZERO_HIT: u8 = 0x40;

    pub const VBLANK_STARTED: u8 = 0x80;

    /// All bits of `flag` are set.
    pub open spec fn has(self, flag: u8) -> bool {
        self.bits & flag == flag
    }

    /// The register with the bits of `flag` set or cleared.
    pub open spec fn with(self, flag: u8, on: bool) -> StatusRegister {
        StatusRegister {
            bits: if on {
                self.bits | flag
            } else {
                self.bits & !flag
            },
        }
    }

    /// Tells whether all bits of `flag` are set.
    pub fn contains(&self, flag: u8) -> (r: bool)
        ensures
            r == self.has(flag),
    {
        self.bits & flag == flag
    }

    /// The register as a byte.
    pub fn bits(&self) -> (bits: u8)
        ensures
            bits == self.bits,
    {
        self.bits
    }

    /// Sets or clears the bits of `flag`.
    pub fn set(&mut self, flag: u8, on: bool)
        ensures
            *final(self) == old(self).with(flag, on),
    {
        if on {
            self.bits = self.bits | flag;
        } else {
            self.bits = self.bits & !flag;
        }
    }

    /// Clears the bits of `flag`.
    pub fn remove(&mut self, flag: u8)
        ensures
            *final(self) == old(self).with(flag, false),
    {
        self.bits = self.bits & !flag;
    }

    /// Replaces the register.
    pub fn update(&mut self, data: u8)
        ensures
            final(self).bits == data,
    {
        self.bits = data;
    }
}

impl Default for StatusRegister {
    fn default() -> (register: Self)
        ensures
            register.bits == 0,
    {
        StatusRegister { bits: 0 }
    }
}

/// The scroll register, `$2005`: horizontal offset first, then vertical.
#[derive(Debug, Eq, PartialEq, Structural, Clone, Copy)]
pub struct ScrollRegister {
    pub x: u8,
    pub y: u8,
    /// The next write is the vertical offset.
    pub latch: bool,
}

impl ScrollRegister {
    /// The register after a write of `data`.
    pub open spec fn updated(self, data: u8) -> ScrollRegister {
        if self.latch {
            ScrollRegister { x: self.x, y: data, latch: false }
        } else {
            ScrollRegister { x: data, y: self.y, latch: true }
        }
    }

    /// Writes one of the two offsets.
    pub fn update(&mut self, data: u8)
        ensures
            *final(self) == old(self).updated(data),
    {
        if !self.latch {
            self.x = data;
        } else {
            self.y = data;
        }
        self.latch = !self.latch;
    }
}

impl Default for ScrollRegister {
    fn default() -> (register: Self)
        ensures
            register == (ScrollRegister { x: 0, y: 0, latch: false }),
    {
        Self { x: 0, y: 0, latch: false }
    }
}

} // verus!
