//! The CPU's memory bus: work RAM, the PPU's registers, OAM DMA, the joypad
//! and the cartridge's program ROM, each at its place in the address space.
use crate::bytes::copied;
use crate::bytes::zeroed;
use crate::cpu::cartridge::Cartridge;
use crate::cpu::cartridge::CartridgeView;
use crate::cpu::joypad::Buttons;
use crate::cpu::joypad::Joypad;
use crate::ppu::Ppu;
use crate::ppu::PpuView;
use vstd::prelude::*;

verus! {

/// Bytes of work RAM.
pub const RAM_SIZE: usize = 0x800;

/// End of the mirrored work RAM.
pub const RAM_END: u16 = 0x1FFF;

/// Start of the mirrored PPU registers.
pub const PPU_REGISTER_BEGIN: u16 = 0x2000;

/// End of the mirrored PPU registers.
pub const PPU_REGISTER_END: u16 = 0x3FFF;

/// The OAM DMA register.
pub const PPU_OAM_DMA: u16 = 0x4014;

/// The first joypad's port.
pub const JOYPAD_1: u16 = 0x4016;

/// Start of program ROM.
pub const PRG_ROM_BEGIN: u16 = 0x8000;

/// Everything the CPU reaches through an address.
pub struct Bus {
    pub ram: Vec<u8>,
    pub cartridge: Cartridge,
    pub ppu: Ppu,
    pub joypad: Joypad,
    /// An OAM DMA transfer took place and the CPU has not been stalled for it yet.
    pub dma_stall: bool,
}

/// The mathematical content of a [`Bus`].
pub struct BusView {
    pub ram: Seq<u8>,
    pub cartridge: CartridgeView,
    pub ppu: PpuView,
    pub joypad: Joypad,
    pub dma_stall: bool,
}

impl View for Bus {
    type V = BusView;

    open spec fn view(&self) -> BusView {
        BusView {
            ram: self.ram@,
            cartridge: self.cartridge@,
            ppu: self.ppu@,
            joypad: self.joypad,
            dma_stall: self.dma_stall,
        }
    }
}

impl CartridgeView {
    /// The cartridge can sit on the bus: its program ROM is one bank of 16 KiB,
    /// or fills the 32 KiB window, and its pattern ROM fills the 8 KiB of the
    /// pattern tables.
    pub open spec fn fits_bus(self) -> bool {
        &&& self.prg_rom.len() == 0x4000 || self.prg_rom.len() >= 0x8000
        &&& self.chr_rom.len() >= 0x2000
    }

    /// Index into program ROM of a CPU address from `$8000` up: a single bank
    /// of 16 KiB appears twice.
    pub open spec fn prg_index(self, addr: u16) -> int {
        let offset = addr - 0x8000;
        if self.prg_rom.len() == 0x4000 {
            offset % 0x4000
        } else {
            offset
        }
    }
}

impl BusView {
    /// The bus after power-on with `cartridge` plugged in.
    pub open spec fn power_on(cartridge: CartridgeView) -> BusView {
        BusView {
            ram: Seq::new(RAM_SIZE as nat, |i: int| 0u8),
            cartridge,
            ppu: PpuView::power_on(cartridge.chr_rom, cartridge.mirroring),
            joypad: Joypad { strobe: false, button_index: 0, buttons: Buttons { bits: 0 } },
            dma_stall: false,
        }
    }

    /// Work RAM has its 2 KiB, the cartridge fits, and the parts are well formed.
    pub open spec fn wf(self) -> bool {
        &&& self.ram.len() == RAM_SIZE
        &&& self.cartridge.prg_rom.len() == 0x4000 || self.cartridge.prg_rom.len() >= 0x8000
        &&& self.ppu.wf()
        &&& self.joypad.wf()
    }

    /// The byte that a read at `addr` returns.
    ///
    /// Work RAM repeats every 2 KiB up to `$1FFF`, the eight PPU registers
    /// repeat up to `$3FFF`; of those only status, OAM data and the data port
    /// can be read. `$4016` is the joypad, `$8000` and up is program ROM, and
    /// everything else reads as zero.
    #[verifier::opaque]
    pub open spec fn peek(self, addr: u16) -> u8 {
        if addr <= RAM_END {
            self.ram[addr as int % 0x800]
        } else if addr <= PPU_REGISTER_END {
            let register = addr % 8;
            if register == 2 {
                self.ppu.status.bits
            } else if register == 4 {
                self.ppu.oam_data[self.ppu.oam_addr as int]
            } else if register == 7 {
                self.ppu.data_port_value()
            } else {
                0
            }
        } else if addr == JOYPAD_1 {
            self.joypad.read_bit()
        } else if addr >= PRG_ROM_BEGIN {
            self.cartridge.prg_rom[self.cartridge.prg_index(addr)]
        } else {
            0
        }
    }

    /// The bus after a read at `addr`: reading the PPU's status or data port,
    /// or the joypad, changes them; no other read changes anything.
    #[verifier::opaque]
    pub open spec fn after_read(self, addr: u16) -> BusView {
        if PPU_REGISTER_BEGIN <= addr <= PPU_REGISTER_END {
            let register = addr % 8;
            if register == 2 {
                BusView { ppu: self.ppu.read_status(), ..self }
            } else if register == 7 {
                BusView { ppu: self.ppu.read_data(), ..self }
            } else {
                self
            }
        } else if addr == JOYPAD_1 {
            BusView { joypad: self.joypad.after_read(), ..self }
        } else {
            self
        }
    }

    /// The little-endian word that two reads at `addr` and `addr + 1` return.
    pub open spec fn peek_u16(self, addr: u16) -> u16 {
        let lo = self.peek(addr);
        let hi = self.after_read(addr).peek(((addr + 1) % 0x10000) as u16);
        (lo + 256 * hi) as u16
    }

    /// The bus after the two reads of [`Self::peek_u16`].
    pub open spec fn after_read_u16(self, addr: u16) -> BusView {
        self.after_read(addr).after_read(((addr + 1) % 0x10000) as u16)
    }

    /// The little-endian word that two reads in the zero page return; the
    /// second read is at `addr + 1` modulo 256.
    pub open spec fn peek_u16_zp(self, addr: u8) -> u16 {
        let lo = self.peek(addr as u16);
        let hi = self.after_read(addr as u16).peek(((addr + 1) % 256) as u16);
        (lo + 256 * hi) as u16
    }

    /// The bus after the two reads of [`Self::peek_u16_zp`].
    pub open spec fn after_read_u16_zp(self, addr: u8) -> BusView {
        self.after_read(addr as u16).after_read(((addr + 1) % 256) as u16)
    }

    /// The bus after `count` reads in a row, starting at `start`.
    pub open spec fn after_reads(self, start: u16, count: nat) -> BusView
        decreases count,
    {
        if count == 0 {
            self
        } else {
            self.after_reads(start, (count - 1) as nat).after_read(
                ((start + count - 1) % 0x10000) as u16,
            )
        }
    }

    /// The bytes that `count` reads in a row, starting at `start`, return.
    pub open spec fn read_bytes(self, start: u16, count: nat) -> Seq<u8>
        decreases count,
    {
        if count == 0 {
            Seq::empty()
        } else {
            self.read_bytes(start, (count - 1) as nat).push(
                self.after_reads(start, (count - 1) as nat).peek(
                    ((start + count - 1) % 0x10000) as u16,
                ),
            )
        }
    }

    /// The bus after an OAM DMA transfer from page `page`: 256 bytes are read
    /// one after the other from `page * 256` on, handed to the PPU, and the
    /// CPU owes the stall.
    pub open spec fn oam_dma(self, page: u8) -> BusView {
        let start = (page * 256) as u16;
        let source = self.after_reads(start, 256);
        BusView {
            ppu: source.ppu.write_oam_dma(self.read_bytes(start, 256)),
            dma_stall: true,
            ..source
        }
    }

    /// The bus after a write of `value` at `addr`.
    ///
    /// Work RAM and the PPU's registers repeat as for reads; a write to the
    /// read-only status register is dropped. `$4014` starts an OAM DMA
    /// transfer, `$4016` is the joypad's strobe. Program ROM and everything
    /// else ignores writes.
    #[verifier::opaque]
    pub open spec fn write(self, addr: u16, value: u8) -> BusView {
        if addr <= RAM_END {
            BusView { ram: self.ram.update(addr as int % 0x800, value), ..self }
        } else if addr <= PPU_REGISTER_END {
            let register = addr % 8;
            if register == 0 {
                BusView { ppu: self.ppu.write_ctrl(value), ..self }
            } else if register == 1 {
                BusView { ppu: self.ppu.write_mask(value), ..self }
            } else if register == 3 {
                BusView { ppu: self.ppu.write_oam_addr(value), ..self }
            } else if register == 4 {
                BusView { ppu: self.ppu.write_oam_data(value), ..self }
            } else if register == 5 {
                BusView { ppu: self.ppu.write_scroll(value), ..self }
            } else if register == 6 {
                BusView { ppu: self.ppu.write_addr(value), ..self }
            } else if register == 7 {
                BusView { ppu: self.ppu.write_data(value), ..self }
            } else {
                self
            }
        } else if addr == PPU_OAM_DMA {
            self.oam_dma(value)
        } else if addr == JOYPAD_1 {
            BusView { joypad: self.joypad.written(value), ..self }
        } else {
            self
        }
    }
}

impl Cartridge {
    /// Tells whether the cartridge can sit on the bus.
    pub fn fits_bus(&self) -> (fits: bool)
        ensures
            fits == self@.fits_bus(),
    {
        (self.prg_rom.len() == 0x4000 || self.prg_rom.len() >= 0x8000) && self.chr_rom.len()
            >= 0x2000
    }
}

impl Bus {
    /// See [`BusView::wf`].
    pub open spec fn wf(&self) -> bool {
        self@.wf()
    }

    /// Tells whether the bus is well formed.
    pub fn well_formed(&self) -> (r: bool)
        ensures
            r == self.wf(),
    {
        self.ram.len() == RAM_SIZE && (self.cartridge.prg_rom.len() == 0x4000
            || self.cartridge.prg_rom.len() >= 0x8000) && self.ppu.well_formed()
            && self.joypad.button_index <= 8
    }

    /// A bus after power-on with `cartridge` plugged in. It is well formed if
    /// the cartridge fits.
    pub fn new(cartridge: Cartridge) -> (bus: Bus)
        ensures
            bus@ == BusView::power_on(cartridge@),
            cartridge@.fits_bus() ==> bus.wf(),
    {
        Bus {
            ram: zeroed(RAM_SIZE),
            ppu: Ppu::new(copied(&cartridge.chr_rom), cartridge.mirroring),
            cartridge,
            joypad: Joypad::default(),
            dma_stall: false,
        }
    }

    /// The byte that a read at `addr` would return, without the read taking place.
    pub fn peek(&self, addr: u16) -> (data: u8)
        requires
            self.wf(),
        ensures
            data == self@.peek(addr),
    {
        proof {
            reveal(BusView::peek);
        }
        if addr <= RAM_END {
            self.ram[(addr % 0x800) as usize]
        } else if addr <= PPU_REGISTER_END {
            let register: u16 = addr % 8;
            if register == 2 {
                self.ppu.status.bits()
            } else if register == 4 {
                self.ppu.read_oam_data()
            } else if register == 7 {
                let vram_addr = self.ppu.addr.get();
                if vram_addr < 0x3000 {
                    self.ppu.data_buffer
                } else if vram_addr >= 0x3F00 {
                    self.ppu.palette_table[Ppu::palette_mirror(vram_addr) as usize]
                } else {
                    0
                }
            } else {
                0
            }
        } else if addr == JOYPAD_1 {
            let mut joypad = self.joypad;
            joypad.read()
        } else if addr >= PRG_ROM_BEGIN {
            self.cartridge.prg_rom[self.prg_rom_index(addr)]
        } else {
            0
        }
    }

    /// Index into program ROM of a CPU address from `$8000` up.
    fn prg_rom_index(&self, addr: u16) -> (index: usize)
        requires
            self.wf(),
            addr >= PRG_ROM_BEGIN,
        ensures
            index == self@.cartridge.prg_index(addr),
            index < self.cartridge.prg_rom.len(),
    {
        let mut rom_location: u16 = addr - 0x8000;
        if self.cartridge.prg_rom.len() == 0x4000 {
            rom_location = rom_location % 0x4000;
        }
        rom_location as usize
    }

    /// Reads the byte at `addr`.
    pub fn read(&mut self, addr: u16) -> (data: u8)
        requires
            old(self).wf(),
        ensures
            data == old(self)@.peek(addr),
            final(self)@ == old(self)@.after_read(addr),
            final(self).wf(),
    {
        proof {
            reveal(BusView::peek);
            reveal(BusView::after_read);
        }
        if addr <= RAM_END {
            self.ram[(addr % 0x800) as usize]
        } else if addr <= PPU_REGISTER_END {
            let register: u16 = addr % 8;
            if register == 2 {
                self.ppu.read_status()
            } else if register == 4 {
                self.ppu.read_oam_data()
            } else if register == 7 {
                self.ppu.read_data()
            } else {
                0
            }
        } else if addr == JOYPAD_1 {
            self.joypad.read()
        } else if addr >= PRG_ROM_BEGIN {
            self.cartridge.prg_rom[self.prg_rom_index(addr)]
        } else {
            0
        }
    }

    /// Reads the little-endian word at `addr` and `addr + 1`.
    pub fn read_u16(&mut self, addr: u16) -> (data: u16)
        requires
            old(self).wf(),
        ensures
            data == old(self)@.peek_u16(addr),
            final(self)@ == old(self)@.after_read_u16(addr),
            final(self).wf(),
    {
        let lsb = self.read(addr);
        let msb = self.read(addr.wrapping_add(1));
        msb as u16 * 256 + lsb as u16
    }

    /// Reads the little-endian word at `addr` and `addr + 1` in the zero page;
    /// from `$FF` the high byte comes from `$00`.
    pub fn read_u16_zp(&mut self, addr: u8) -> (data: u16)
        requires
            old(self).wf(),
        ensures
            data == old(self)@.peek_u16_zp(addr),
            final(self)@ == old(self)@.after_read_u16_zp(addr),
            final(self).wf(),
    {
        let lo = self.read(addr as u16);
        let hi = self.read(addr.wrapping_add(1) as u16);
        hi as u16 * 256 + lo as u16
    }

    /// Writes `value` at `addr`.
    pub fn write(&mut self, addr: u16, value: u8)
        requires
            old(self).wf(),
        ensures
            final(self)@ == old(self)@.write(addr, value),
            final(self).wf(),
    {
        proof {
            reveal(BusView::write);
        }
        if addr <= RAM_END {
            self.ram[(addr % 0x800) as usize] = value;
        } else if addr <= PPU_REGISTER_END {
            let register: u16 = addr % 8;
            if register == 0 {
                self.ppu.write_ctrl(value);
            } else if register == 1 {
                self.ppu.write_mask(value);
            } else if register == 3 {
                self.ppu.write_oam_addr(value);
            } else if register == 4 {
                self.ppu.write_oam_data(value);
            } else if register == 5 {
                self.ppu.write_scroll(value);
            } else if register == 6 {
                self.ppu.write_addr(value);
            } else if register == 7 {
                self.ppu.write_data(value);
            }
        } else if addr == PPU_OAM_DMA {
            let mut buffer: [u8; 256] = [0; 256];
            let hi: u16 = value as u16 * 256;
            let mut i: u16 = 0;
            while i < 256
                invariant
                    i <= 256,
                    hi == value * 256,
                    self.wf(),
                    self@ == old(self)@.after_reads(hi, i as nat),
                    forall|k: int|
                        0 <= k < i ==> #[trigger] buffer@[k] == old(self)@.read_bytes(
                            hi,
                            i as nat,
                        )[k],
                    old(self)@.read_bytes(hi, i as nat).len() == i,
                decreases 256 - i,
            {
                let byte = self.read(hi.wrapping_add(i));
                buffer[i as usize] = byte;
                i += 1;
            }
            assert(buffer@ =~= old(self)@.read_bytes(hi, 256));
            self.ppu.write_oam_dma(&buffer);
            self.dma_stall = true;
        } else if addr == JOYPAD_1 {
            self.joypad.write(value);
        }
    }

    /// One of the eight pages of work RAM.
    pub fn get_page(&self, page: u8) -> (bytes: &[u8])
        requires
            self.wf(),
        ensures
            bytes@ == self.ram@.subrange((page % 8) * 256, (page % 8) * 256 + 256),
    {
        let bounded: u8 = page % 8;
        let start: usize = bounded as usize * 256;
        let end: usize = start + 256;
        vstd::slice::slice_subrange(self.ram.as_slice(), start, end)
    }
}

} // verus!
