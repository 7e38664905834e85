//! The registers of the 6502, its stack and its status flags.
use crate::cpu::bus::Bus;
use crate::cpu::bus::BusView;
use crate::cpu::controller::Controller;
use crate::cpu::instructions::AddressingMode;
use vstd::prelude::*;

verus! {

/// Cycle count right after reset.
pub const RESET_CYCLES: u64 = 7;

/// Stack pointer right after reset.
pub const RESET_STACK_POINTER: u8 = 0xFD;

/// Where the reset vector is stored.
pub const RESET_VECTOR: u16 = 0xFFFC;

/// Where the vector of the non-maskable interrupt is stored.
pub const NMI_VECTOR: u16 = 0xFFFA;

/// Where the vector of `BRK` is stored.
pub const BRK_VECTOR: u16 = 0xFFFE;

/// Start of the page that holds the stack.
pub const STACK_PAGE: u16 = 0x0100;

/// The status register: one byte, one flag per bit.
#[derive(Debug, Eq, PartialEq, Structural, Clone, Copy)]
pub struct CpuStatusRegister {
    pub bits: u8,
}

impl CpuStatusRegister {
    /// Carry.
    pub const C: u8 = 0x01;

    /// Zero.
    pub const Z: u8 = 0x02;

    /// Interrupt disable.
    pub const I: u8 = 0x04;

    /// Decimal mode.
    pub const D: u8 = 0x08;

    /// Break: set only in the copy that `PHP` and `BRK` push.
    pub const B: u8 = 0x10;

    /// Unused: reads as one.
    pub const U: u8 = 0x20;

    /// Overflow.
    pub const V: u8 = 0x40;

    /// Negative.
    pub const N: u8 = 0x80;

    /// Some bit of `flag` is set.
    pub open spec fn has(self, flag: u8) -> bool {
        self.bits & flag != 0
    }

    /// The register with the bits of `flag` set or cleared.
    pub open spec fn with(self, flag: u8, on: bool) -> CpuStatusRegister {
        CpuStatusRegister {
            bits: if on {
                self.bits | flag
            } else {
                self.bits & !flag
            },
        }
    }

    /// The register with `Z` and `N` taken from `value`: `Z` says that it is
    /// zero, `N` is its bit 7.
    pub open spec fn with_zn(self, value: u8) -> CpuStatusRegister {
        self.with(0x02, value == 0).with(0x80, value & 0x80 == 0x80)
    }

    /// The byte that `PHP` and `BRK` push: the register with `B` and `U` set.
    pub open spec fn pushed(self) -> u8 {
        self.bits | 0x20 | 0x10
    }

    /// The register that `PLP` and `RTI` make of a popped byte: `B` cleared, `U` set.
    pub open spec fn pulled(byte: u8) -> CpuStatusRegister {
        CpuStatusRegister { bits: (byte & !0x10u8) | 0x20 }
    }

    /// A register from a byte.
    pub fn from_bits_truncate(bits: u8) -> (register: Self)
        ensures
            register.bits == bits,
    {
        CpuStatusRegister { bits }
    }

    /// The register as a byte.
    pub fn bits(&self) -> (bits: u8)
        ensures
            bits == self.bits,
    {
        self.bits
    }

    /// Tells whether some bit of `flag` is set.
    pub fn intersects(&self, flag: u8) -> (r: bool)
        ensures
            r == self.has(flag),
    {
        self.bits & flag != 0
    }

    /// Sets or clears the bits of `flag`.
    pub fn set(&mut self, flag: u8, on: bool)
        ensures
            *final(self) == old(self).with(flag, on),
    {
        if on {
            self.bits = self.bits | flag;
        } else {
            self.bits = self.bits & !flag;
        }
    }
}

impl Default for CpuStatusRegister {
    fn default() -> (register: Self)
        ensures
            register.bits == 0,
    {
        CpuStatusRegister { bits: 0 }
    }
}

/// The processor, with the bus it owns.
pub struct Cpu {
    pub cycle: u64,
    /// Program counter.
    pub pc: u16,
    /// Stack pointer: low byte of the next free slot in page 1.
    pub sp: u8,
    /// Accumulator.
    pub r_a: u8,
    /// Index register X.
    pub r_x: u8,
    /// Index register Y.
    pub r_y: u8,
    pub status: CpuStatusRegister,
    pub bus: Bus,
    pub controller: Controller,
}

/// The mathematical content of a [`Cpu`].
pub struct CpuView {
    pub cycle: u64,
    pub pc: u16,
    pub sp: u8,
    pub r_a: u8,
    pub r_x: u8,
    pub r_y: u8,
    pub status: CpuStatusRegister,
    pub bus: BusView,
    pub controller: Controller,
}

impl View for Cpu {
    type V = CpuView;

    open spec fn view(&self) -> CpuView {
        CpuView {
            cycle: self.cycle,
            pc: self.pc,
            sp: self.sp,
            r_a: self.r_a,
            r_x: self.r_x,
            r_y: self.r_y,
            status: self.status,
            bus: self.bus@,
            controller: self.controller,
        }
    }
}

/// Two addresses lie on different pages of 256 bytes.
pub open spec fn pages_differ(base: u16, absolute: u16) -> bool {
    base / 256 != absolute / 256
}

/// The sixteen-bit offset that a branch adds to the program counter: its
/// operand byte, sign-extended.
pub open spec fn branch_offset(relative_address: u16) -> u16 {
    if (relative_address / 128) % 2 == 1 {
        (0xFF00 + relative_address % 256) as u16
    } else {
        relative_address
    }
}

impl CpuView {
    /// The processor after reset on `bus`: the program counter comes from the
    /// reset vector, the flags are `I` and `U`.
    pub open spec fn power_on(bus: BusView) -> CpuView {
        CpuView {
            cycle: RESET_CYCLES,
            pc: bus.peek_u16(RESET_VECTOR),
            sp: RESET_STACK_POINTER,
            r_a: 0,
            r_x: 0,
            r_y: 0,
            status: CpuStatusRegister { bits: CpuStatusRegister::U | CpuStatusRegister::I },
            bus: bus.after_read_u16(RESET_VECTOR),
            controller: Controller { step_mode: false, pause: false, quit: false },
        }
    }

    /// The bus is well formed.
    pub open spec fn wf(self) -> bool {
        self.bus.wf()
    }

    /// Address of the stack slot that the stack pointer names.
    pub open spec fn stack_address(sp: u8) -> u16 {
        (STACK_PAGE + sp) as u16
    }

    /// The processor after a push: the byte goes to the slot of the stack
    /// pointer, which then moves down and wraps below zero.
    pub open spec fn push(self, data: u8) -> CpuView {
        CpuView {
            bus: self.bus.write(Self::stack_address(self.sp), data),
            sp: self.sp.wrapping_sub(1),
            ..self
        }
    }

    /// The processor after a push of a word: high byte first.
    pub open spec fn push_u16(self, data: u16) -> CpuView {
        self.push((data / 256) as u8).push((data % 256) as u8)
    }

    /// The byte that a pop returns: the one above the stack pointer.
    pub open spec fn top(self) -> u8 {
        self.bus.peek(Self::stack_address(self.sp.wrapping_add(1)))
    }

    /// The processor after a pop: the stack pointer moves up and wraps above `$FF`.
    pub open spec fn pop(self) -> CpuView {
        CpuView { sp: self.sp.wrapping_add(1), ..self }
    }

    /// The word that two pops return: low byte first.
    pub open spec fn top_u16(self) -> u16 {
        (self.top() + 256 * self.pop().top()) as u16
    }

    /// The processor after two pops.
    pub open spec fn pop_u16(self) -> CpuView {
        self.pop().pop()
    }

    /// The processor with `Z` and `N` taken from `value`.
    pub open spec fn set_zn(self, value: u8) -> CpuView {
        CpuView { status: self.status.with_zn(value), ..self }
    }

    /// The processor with a flag set or cleared.
    pub open spec fn set_flag(self, flag: u8, on: bool) -> CpuView {
        CpuView { status: self.status.with(flag, on), ..self }
    }

    /// The processor after an operation wrote its result back to where its
    /// operand came from: the accumulator, or the effective address. An
    /// immediate operand is not written.
    pub open spec fn write_fetched(
        self,
        address_mode: AddressingMode,
        address: Option<u16>,
        value: u8,
    ) -> CpuView {
        match address_mode {
            AddressingMode::Implied | AddressingMode::Accumulator => CpuView {
                r_a: value,
                ..self
            },
            AddressingMode::Immediate => self,
            _ => CpuView { bus: self.bus.write(address->0, value), ..self },
        }
    }

    /// Where a taken branch lands.
    pub open spec fn branch_target(self, relative_address: u16) -> u16 {
        self.pc.wrapping_add(branch_offset(relative_address))
    }

    /// The processor after a taken branch.
    pub open spec fn branch(self, relative_address: u16) -> CpuView {
        CpuView { pc: self.branch_target(relative_address), ..self }
    }

    /// What a taken branch costs: one cycle, and one more if it leaves the
    /// page of the instruction that follows the branch.
    pub open spec fn branch_cycles(self, relative_address: u16) -> u8 {
        if pages_differ(self.pc, self.branch_target(relative_address)) {
            2
        } else {
            1
        }
    }
}

impl Cpu {
    /// See [`CpuView::wf`].
    pub open spec fn wf(&self) -> bool {
        self@.wf()
    }

    /// Tells whether the processor is well formed.
    pub fn well_formed(&self) -> (r: bool)
        ensures
            r == self.wf(),
    {
        self.bus.well_formed()
    }

    /// A processor after reset, on `bus`.
    pub fn new(bus: Bus) -> (cpu: Self)
        requires
            bus.wf(),
        ensures
            cpu@ == CpuView::power_on(bus@),
            cpu.wf(),
    {
        let mut bus = bus;
        let pc = bus.read_u16(RESET_VECTOR);
        Self {
            cycle: RESET_CYCLES,
            pc,
            sp: RESET_STACK_POINTER,
            r_a: 0,
            r_x: 0,
            r_y: 0,
            status: CpuStatusRegister { bits: CpuStatusRegister::U | CpuStatusRegister::I },
            bus,
            controller: Controller::default(),
        }
    }

    /// Tells whether two addresses lie on different pages.
    pub fn page_cross(base: u16, absolute: u16) -> (crossed: bool)
        ensures
            crossed == pages_differ(base, absolute),
    {
        base / 256 != absolute / 256
    }

    /// Pushes a byte.
    pub fn push(&mut self, data: u8)
        requires
            old(self).wf(),
        ensures
            final(self)@ == old(self)@.push(data),
            final(self).sp == (old(self).sp - 1) % 256,
            final(self).wf(),
    {
        self.bus.write(STACK_PAGE + self.sp as u16, data);
        self.sp = self.sp.wrapping_sub(1);
    }

    /// Pushes a word, high byte first.
    pub fn push_u16(&mut self, data: u16)
        requires
            old(self).wf(),
        ensures
            final(self)@ == old(self)@.push_u16(data),
            final(self).wf(),
    {
        self.push((data / 256) as u8);
        self.push((data % 256) as u8);
    }

    /// Pops a byte.
    pub fn pop(&mut self) -> (data: u8)
        requires
            old(self).wf(),
        ensures
            data == old(self)@.top(),
            final(self)@ == old(self)@.pop(),
            final(self).sp == (old(self).sp + 1) % 256,
            final(self).wf(),
    {
        proof {
            reveal(BusView::after_read);
        }
        self.sp = self.sp.wrapping_add(1);
        self.bus.read(STACK_PAGE + self.sp as u16)
    }

    /// Pops a word, low byte first.
    pub fn pop_u16(&mut self) -> (data: u16)
        requires
            old(self).wf(),
        ensures
            data == old(self)@.top_u16(),
            final(self)@ == old(self)@.pop_u16(),
            final(self).wf(),
    {
        let lo = self.pop();
        let hi = self.pop();
        hi as u16 * 256 + lo as u16
    }

    /// Takes `Z` and `N` from `value`.
    pub fn set_zn(&mut self, value: u8)
        ensures
            final(self)@ == old(self)@.set_zn(value),
            old(self).wf() ==> final(self).wf(),
    {
        self.status.set(CpuStatusRegister::Z, value == 0);
        self.status.set(CpuStatusRegister::N, value & 0x80 == 0x80);
    }

    /// Writes the result of an operation back to where its operand came from.
    pub fn write_fetched(&mut self, address_mode: &AddressingMode, address: Option<u16>, value: u8)
        requires
            old(self).wf(),
            address_mode.has_address() ==> address is Some,
        ensures
            final(self)@ == old(self)@.write_fetched(*address_mode, address, value),
            final(self).wf(),
    {
        match address_mode {
            AddressingMode::Implied | AddressingMode::Accumulator => {
                self.r_a = value;
            },
            AddressingMode::Immediate => {},
            _ => {
                self.bus.write(address.unwrap(), value);
            },
        }
    }

    /// Takes a branch and says what it costs. `relative_address` is the
    /// operand byte of the branch; the program counter is already behind it.
    pub fn branch(&mut self, relative_address: u16) -> (cycles: u8)
        ensures
            final(self)@ == old(self)@.branch(relative_address),
            cycles == old(self)@.branch_cycles(relative_address),
            old(self).wf() ==> final(self).wf(),
    {
        let offset: u16 = if (relative_address / 128) % 2 == 1 {
            0xFF00 + relative_address % 256
        } else {
            relative_address
        };
        let absolute_address = self.pc.wrapping_add(offset);
        let crossed = Self::page_cross(self.pc, absolute_address);
        self.pc = absolute_address;
        if crossed {
            2
        } else {
            1
        }
    }
}

} // verus!
