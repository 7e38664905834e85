//! The picture processing unit: its memories, its registers and its timing.
use crate::bytes::zeroed;
use crate::cpu::cartridge::Mirroring;
use vstd::prelude::*;

pub mod registers;

use registers::AddressRegister;
use registers::ControlRegister;
use registers::MaskRegister;
use registers::ScrollRegister;
use registers::StatusRegister;

verus! {

/// Dots in one scanline.
pub const DOTS_PER_SCANLINE: u64 = 341;

/// Scanlines in one frame.
pub const SCANLINES_PER_FRAME: u64 = 262;

/// The scanline on which the vertical blank starts.
pub const VBLANK_SCANLINE: u64 = 241;

/// The picture processing unit.
pub struct Ppu {
    pub chr_rom: Vec<u8>,
    pub palette_table: Vec<u8>,
    pub vram: Vec<u8>,
    pub oam_data: Vec<u8>,
    pub mirroring: Mirroring,
    /// What the data port hands out at the next read below the palettes.
    pub data_buffer: u8,
    pub addr: AddressRegister,
    pub ctrl: ControlRegister,
    pub mask: MaskRegister,
    pub status: StatusRegister,
    pub scroll: ScrollRegister,
    pub oam_addr: u8,
    /// Dot inside the scanline.
    pub cycle: u64,
    pub scanline: u64,
    /// A latched, not yet serviced interrupt request.
    pub nmi_interrupt: Option<u8>,
}

/// The mathematical content of a [`Ppu`].
pub struct PpuView {
    pub chr_rom: Seq<u8>,
    pub palette_table: Seq<u8>,
    pub vram: Seq<u8>,
    pub oam_data: Seq<u8>,
    pub mirroring: Mirroring,
    pub data_buffer: u8,
    pub addr: AddressRegister,
    pub ctrl: ControlRegister,
    pub mask: MaskRegister,
    pub status: StatusRegister,
    pub scroll: ScrollRegister,
    pub oam_addr: u8,
    pub cycle: u64,
    pub scanline: u64,
    pub nmi_interrupt: Option<u8>,
}

impl View for Ppu {
    type V = PpuView;

    open spec fn view(&self) -> PpuView {
        PpuView {
            chr_rom: self.chr_rom@,
            palette_table: self.palette_table@,
            vram: self.vram@,
            oam_data: self.oam_data@,
            mirroring: self.mirroring,
            data_buffer: self.data_buffer,
            addr: self.addr,
            ctrl: self.ctrl,
            mask: self.mask,
            status: self.status,
            scroll: self.scroll,
            oam_addr: self.oam_addr,
            cycle: self.cycle,
            scanline: self.scanline,
            nmi_interrupt: self.nmi_interrupt,
        }
    }
}

/// Bytes of nametable memory: the two physical tables, or four with
/// four-screen mirroring.
pub open spec fn vram_size(mirroring: Mirroring) -> int {
    if mirroring == Mirroring::FourScreen {
        4096
    } else {
        2048
    }
}

/// The physical nametable behind a logical quadrant.
pub open spec fn physical_nametable(mirroring: Mirroring, quadrant: int) -> int {
    match mirroring {
        Mirroring::Vertical => quadrant % 2,
        Mirroring::Horizontal => quadrant / 2,
        Mirroring::FourScreen => quadrant,
    }
}

/// Index into nametable memory of a PPU address: the address is taken modulo
/// the four quadrants of 1 KiB, and the quadrant replaced by its physical table.
pub open spec fn mirrored_vram_index(mirroring: Mirroring, addr: u16) -> int {
    let index = addr as int % 0x1000;
    physical_nametable(mirroring, index / 0x400) * 0x400 + index % 0x400
}

/// Index into the palette table of a PPU address: the address modulo 32,
/// with the entries `0x10`, `0x14`, `0x18` and `0x1C` folded onto `0x00`,
/// `0x04`, `0x08` and `0x0C`.
pub open spec fn palette_index(addr: u16) -> int {
    let index = addr as int % 32;
    if index == 0x10 || index == 0x14 || index == 0x18 || index == 0x1C {
        index - 16
    } else {
        index
    }
}

impl PpuView {
    /// The unit after power-on, with the cartridge's pattern memory.
    pub open spec fn power_on(chr_rom: Seq<u8>, mirroring: Mirroring) -> PpuView {
        PpuView {
            chr_rom,
            palette_table: Seq::new(32, |i: int| 0u8),
            vram: Seq::new(vram_size(mirroring) as nat, |i: int| 0u8),
            oam_data: Seq::new(256, |i: int| 0u8),
            mirroring,
            data_buffer: 0,
            addr: AddressRegister { value: (0, 0), high_byte: true },
            ctrl: ControlRegister { bits: 0 },
            mask: MaskRegister { bits: 0 },
            status: StatusRegister { bits: 0 },
            scroll: ScrollRegister { x: 0, y: 0, latch: false },
            oam_addr: 0,
            cycle: 0,
            scanline: 0,
            nmi_interrupt: None,
        }
    }

    /// The memories have their sizes, the beam is inside the frame, and the
    /// VRAM address has fourteen bits.
    pub open spec fn wf(self) -> bool {
        &&& self.chr_rom.len() >= 0x2000
        &&& self.palette_table.len() == 32
        &&& self.vram.len() == vram_size(self.mirroring)
        &&& self.oam_data.len() == 256
        &&& self.cycle < DOTS_PER_SCANLINE
        &&& self.scanline < SCANLINES_PER_FRAME
        &&& self.addr.address() < 0x4000
    }

    /// The unit after `cycles` dots. The beam moves on; when it passes the end
    /// of a scanline, the next one starts. Entering scanline 241 raises the
    /// vertical-blank flag, clears the sprite-zero flag and, if the control
    /// register asks for it, latches an interrupt. Leaving the last scanline
    /// starts a new frame: the vertical-blank flag and the latch are cleared.
    pub open spec fn step(self, cycles: u8) -> PpuView {
        let cycle = self.cycle + cycles;
        if cycle < DOTS_PER_SCANLINE {
            PpuView { cycle: cycle as u64, ..self }
        } else {
            let scanline = self.scanline + 1;
            let moved = PpuView { cycle: (cycle - DOTS_PER_SCANLINE) as u64, ..self };
            if scanline == VBLANK_SCANLINE {
                PpuView {
                    scanline: scanline as u64,
                    status: self.status.with(0x80, true).with(0x40, false),
                    nmi_interrupt: if self.ctrl.has(0x80) {
                        Some(1u8)
                    } else {
                        self.nmi_interrupt
                    },
                    ..moved
                }
            } else if scanline >= SCANLINES_PER_FRAME {
                PpuView {
                    scanline: 0,
                    status: self.status.with(0x80, false),
                    nmi_interrupt: None,
                    ..moved
                }
            } else {
                PpuView { scanline: scanline as u64, ..moved }
            }
        }
    }

    /// `cycles` dots from now the beam has left the last scanline.
    pub open spec fn completes_frame(self, cycles: u8) -> bool {
        self.cycle + cycles >= DOTS_PER_SCANLINE && self.scanline + 1 >= SCANLINES_PER_FRAME
    }

    /// The unit after `cpu_cycles` cycles of the processor, three dots each.
    pub open spec fn run(self, cpu_cycles: nat) -> PpuView
        decreases cpu_cycles,
    {
        if cpu_cycles == 0 {
            self
        } else {
            self.run((cpu_cycles - 1) as nat).step(3)
        }
    }

    /// During `cpu_cycles` cycles of the processor the beam leaves the last scanline.
    pub open spec fn run_completes_frame(self, cpu_cycles: nat) -> bool
        decreases cpu_cycles,
    {
        if cpu_cycles == 0 {
            false
        } else {
            self.run_completes_frame((cpu_cycles - 1) as nat) || self.run(
                (cpu_cycles - 1) as nat,
            ).completes_frame(3)
        }
    }

    /// The unit after a write to the control register: an interrupt is latched
    /// when the write switches interrupts on during the vertical blank.
    pub open spec fn write_ctrl(self, value: u8) -> PpuView {
        let ctrl = ControlRegister { bits: value };
        PpuView {
            ctrl,
            nmi_interrupt: if !self.ctrl.has(0x80) && ctrl.has(0x80) && self.status.has(0x80) {
                Some(1u8)
            } else {
                self.nmi_interrupt
            },
            ..self
        }
    }

    /// The unit after a write to the mask register.
    pub open spec fn write_mask(self, value: u8) -> PpuView {
        PpuView { mask: MaskRegister { bits: value }, ..self }
    }

    /// The unit after a write to the OAM address register.
    pub open spec fn write_oam_addr(self, value: u8) -> PpuView {
        PpuView { oam_addr: value, ..self }
    }

    /// The unit after a write to the scroll register.
    pub open spec fn write_scroll(self, value: u8) -> PpuView {
        PpuView { scroll: self.scroll.updated(value), ..self }
    }

    /// The unit after a write to the address register.
    pub open spec fn write_addr(self, value: u8) -> PpuView {
        PpuView { addr: self.addr.updated(value), ..self }
    }

    /// The unit with its interrupt latch cleared.
    pub open spec fn acknowledge_nmi(self) -> PpuView {
        PpuView { nmi_interrupt: None, ..self }
    }

    /// The unit after a read of the status register: the vertical-blank flag is
    /// cleared, and both write latches point at their first byte again.
    pub open spec fn read_status(self) -> PpuView {
        PpuView {
            status: self.status.with(0x80, false),
            scroll: ScrollRegister { latch: false, ..self.scroll },
            addr: AddressRegister { high_byte: true, ..self.addr },
            ..self
        }
    }

    /// The unit after a write to the OAM data port.
    pub open spec fn write_oam_data(self, value: u8) -> PpuView {
        PpuView {
            oam_data: self.oam_data.update(self.oam_addr as int, value),
            oam_addr: ((self.oam_addr + 1) % 256) as u8,
            ..self
        }
    }

    /// The unit after a DMA transfer of 256 bytes: byte `i` of `data` lands at
    /// `oam_addr + i`, wrapping at the end of OAM, and `oam_addr` is the same
    /// as before.
    pub open spec fn write_oam_dma(self, data: Seq<u8>) -> PpuView {
        PpuView {
            oam_data: Seq::new(256, |j: int| data[(j - self.oam_addr as int) % 256]),
            ..self
        }
    }

    /// The unit with its VRAM address at `address`.
    pub open spec fn at_address(self, address: int) -> PpuView {
        PpuView { addr: self.addr.with_address(address), ..self }
    }

    /// The unit with its address register moved on after an access of the data port.
    pub open spec fn advance_address(self) -> PpuView {
        PpuView { addr: self.addr.incremented(self.ctrl.address_step()), ..self }
    }

    /// The byte that a read of the data port returns: below the palettes the
    /// buffered byte of the read before, in the palettes the entry itself.
    pub open spec fn data_port_value(self) -> u8 {
        let addr = self.addr.address();
        if addr < 0x3000 {
            self.data_buffer
        } else if addr >= 0x3F00 {
            self.palette_table[palette_index(addr as u16)]
        } else {
            0
        }
    }

    /// The unit after a read of the data port: the address moves on, and a read
    /// below the palettes refills the buffer from pattern or nametable memory.
    pub open spec fn read_data(self) -> PpuView {
        let addr = self.addr.address();
        let next = self.advance_address();
        if addr < 0x2000 {
            PpuView { data_buffer: self.chr_rom[addr], ..next }
        } else if addr < 0x3000 {
            PpuView {
                data_buffer: self.vram[mirrored_vram_index(self.mirroring, addr as u16)],
                ..next
            }
        } else {
            next
        }
    }

    /// The unit after a write to the data port: the address moves on; a
    /// nametable or palette byte is stored, pattern memory is left alone.
    pub open spec fn write_data(self, value: u8) -> PpuView {
        let addr = self.addr.address();
        let next = self.advance_address();
        if 0x2000 <= addr < 0x3000 {
            PpuView {
                vram: self.vram.update(mirrored_vram_index(self.mirroring, addr as u16), value),
                ..next
            }
        } else if addr >= 0x3F00 {
            PpuView {
                palette_table: self.palette_table.update(palette_index(addr as u16), value),
                ..next
            }
        } else {
            next
        }
    }
}

impl Ppu {
    /// See [`PpuView::wf`].
    pub open spec fn wf(&self) -> bool {
        self@.wf()
    }

    /// Tells whether the unit is well formed.
    pub fn well_formed(&self) -> (r: bool)
        ensures
            r == self.wf(),
    {
        let vram_length: usize = match self.mirroring {
            Mirroring::FourScreen => 4096,
            _ => 2048,
        };
        self.chr_rom.len() >= 0x2000 && self.palette_table.len() == 32 && self.vram.len()
            == vram_length && self.oam_data.len() == 256 && self.cycle < DOTS_PER_SCANLINE
            && self.scanline < SCANLINES_PER_FRAME && self.addr.get() < 0x4000
    }

    /// A unit after power-on. It is well formed if the pattern memory has its 8 KiB.
    pub fn new(chr_rom: Vec<u8>, mirroring: Mirroring) -> (ppu: Self)
        ensures
            ppu@ == PpuView::power_on(chr_rom@, mirroring),
            chr_rom.len() >= 0x2000 ==> ppu.wf(),
    {
        let vram_length: usize = match mirroring {
            Mirroring::FourScreen => 4096,
            _ => 2048,
        };
        let ppu = Ppu {
            chr_rom,
            palette_table: zeroed(32),
            vram: zeroed(vram_length),
            oam_data: zeroed(256),
            mirroring,
            data_buffer: 0,
            addr: AddressRegister::default(),
            ctrl: ControlRegister::default(),
            mask: MaskRegister::default(),
            status: StatusRegister::default(),
            scroll: ScrollRegister::default(),
            oam_addr: 0,
            cycle: 0,
            scanline: 0,
            nmi_interrupt: None,
        };
        ppu
    }

    /// Advances the beam by `cycles` dots and says whether a frame was completed.
    pub fn step(&mut self, cycles: u8) -> (frame_complete: bool)
        requires
            old(self).wf(),
        ensures
            final(self)@ == old(self)@.step(cycles),
            frame_complete == old(self)@.completes_frame(cycles),
            final(self).wf(),
    {
        self.cycle += cycles as u64;
        if self.cycle >= DOTS_PER_SCANLINE {
            self.cycle -= DOTS_PER_SCANLINE;
            self.scanline += 1;
            if self.scanline == VBLANK_SCANLINE {
                self.status.set(StatusRegister::VBLANK_STARTED, true);
                self.status.set(StatusRegister::SPRITE_ZERO_HIT, false);
                if self.ctrl.contains(ControlRegister::GENERATE_NMI) {
                    self.nmi_interrupt = Some(1);
                }
            }
            if self.scanline >= SCANLINES_PER_FRAME {
                self.scanline = 0;
                self.nmi_interrupt = None;
                self.status.set(StatusRegister::VBLANK_STARTED, false);
                return true;
            }
        }
        false
    }

    /// Writes the address register, `$2006`.
    pub fn write_addr(&mut self, value: u8)
        ensures
            final(self)@ == old(self)@.write_addr(value),
            final(self).addr.address() < 0x4000,
            old(self).wf() ==> final(self).wf(),
    {
        self.addr.update(value);
    }

    /// Writes the control register, `$2000`.
    pub fn write_ctrl(&mut self, value: u8)
        ensures
            final(self)@ == old(self)@.write_ctrl(value),
            old(self).wf() ==> final(self).wf(),
    {
        let nmi_status = self.ctrl.contains(ControlRegister::GENERATE_NMI);
        self.ctrl.update(value);
        if !nmi_status && self.ctrl.contains(ControlRegister::GENERATE_NMI)
            && self.status.contains(StatusRegister::VBLANK_STARTED) {
            self.nmi_interrupt = Some(1);
        }
    }

    /// Writes the mask register, `$2001`.
    pub fn write_mask(&mut self, value: u8)
        ensures
            final(self)@ == old(self)@.write_mask(value),
            old(self).wf() ==> final(self).wf(),
    {
        self.mask.update(value);
    }

    /// Reads the status register, `$2002`.
    pub fn read_status(&mut self) -> (data: u8)
        ensures
            data == old(self).status.bits,
            final(self)@ == old(self)@.read_status(),
            !final(self).scroll.latch,
            final(self).addr.high_byte,
            old(self).wf() ==> final(self).wf(),
    {
        let data = self.status.bits();
        self.status.remove(StatusRegister::VBLANK_STARTED);
        self.scroll.latch = false;
        self.addr.high_byte = true;
        data
    }

    /// Writes the OAM address, `$2003`.
    pub fn write_oam_addr(&mut self, value: u8)
        ensures
            final(self)@ == old(self)@.write_oam_addr(value),
            old(self).wf() ==> final(self).wf(),
    {
        self.oam_addr = value;
    }

    /// Writes a byte of OAM through the data port, `$2004`.
    pub fn write_oam_data(&mut self, value: u8)
        requires
            old(self).wf(),
        ensures
            final(self)@ == old(self)@.write_oam_data(value),
            final(self).wf(),
    {
        self.oam_data[self.oam_addr as usize] = value;
        self.oam_addr = self.oam_addr.wrapping_add(1);
    }

    /// Takes the 256 bytes of a DMA transfer into OAM, starting at the OAM address.
    pub fn write_oam_dma(&mut self, data: &[u8; 256])
        requires
            old(self).wf(),
        ensures
            final(self)@ == old(self)@.write_oam_dma(data@),
            final(self).wf(),
    {
        let ghost start = self.oam_addr as int;
        let mut i: usize = 0;
        while i < 256
            invariant
                i <= 256,
                self.wf(),
                self.oam_addr as int == (start + i) % 256,
                self@ == (PpuView {
                    oam_data: self.oam_data@,
                    oam_addr: self.oam_addr,
                    ..old(self)@
                }),
                forall|j: int|
                    0 <= j < 256 && (j - start) % 256 < i ==> #[trigger] self.oam_data@[j]
                        == data@[(j - start) % 256],
            decreases 256 - i,
        {
            self.write_oam_data(data[i]);
            i += 1;
        }
        assert(self.oam_data@ =~= Seq::new(256, |j: int| data@[(j - start) % 256]));
    }

    /// Reads the byte of OAM at the OAM address, `$2004`.
    pub fn read_oam_data(&self) -> (data: u8)
        requires
            self.wf(),
        ensures
            data == self.oam_data@[self.oam_addr as int],
    {
        self.oam_data[self.oam_addr as usize]
    }

    /// Writes the scroll register, `$2005`.
    pub fn write_scroll(&mut self, value: u8)
        ensures
            final(self)@ == old(self)@.write_scroll(value),
            old(self).wf() ==> final(self).wf(),
    {
        self.scroll.update(value);
    }

    /// Reads the data port, `$2007`.
    pub fn read_data(&mut self) -> (data: u8)
        requires
            old(self).wf(),
        ensures
            data == old(self)@.data_port_value(),
            final(self)@ == old(self)@.read_data(),
            final(self).wf(),
    {
        let addr = self.addr.get();
        self.addr.increment(self.ctrl.vram_addr_increment());
        if addr < 0x2000 {
            let result = self.data_buffer;
            self.data_buffer = self.chr_rom[addr as usize];
            result
        } else if addr < 0x3000 {
            let result = self.data_buffer;
            self.data_buffer = self.vram[self.mirror_vram_addr(addr) as usize];
            result
        } else if addr >= 0x3F00 {
            self.palette_table[Ppu::palette_mirror(addr) as usize]
        } else {
            0
        }
    }

    /// Writes the data port, `$2007`.
    pub fn write_data(&mut self, value: u8)
        requires
            old(self).wf(),
        ensures
            final(self)@ == old(self)@.write_data(value),
            final(self).wf(),
    {
        let addr = self.addr.get();
        self.addr.increment(self.ctrl.vram_addr_increment());
        if 0x2000 <= addr && addr < 0x3000 {
            let index = self.mirror_vram_addr(addr) as usize;
            self.vram[index] = value;
        } else if addr >= 0x3F00 {
            let index = Ppu::palette_mirror(addr) as usize;
            self.palette_table[index] = value;
        }
    }

    /// Hands out the latched interrupt request, if there is one, and clears the latch.
    pub fn poll_nmi_status(&mut self) -> (request: Option<u8>)
        ensures
            request == old(self).nmi_interrupt,
            final(self)@ == old(self)@.acknowledge_nmi(),
            old(self).wf() ==> final(self).wf(),
    {
        let request = self.nmi_interrupt;
        self.nmi_interrupt = None;
        request
    }

    /// Index into the palette table of a PPU address.
    pub fn palette_mirror(addr: u16) -> (index: u16)
        ensures
            index == palette_index(addr),
            index < 32,
    {
        let index: u16 = addr % 32;
        if index >= 16 && index % 4 == 0 {
            index - 16
        } else {
            index
        }
    }

    /// Index into nametable memory of a PPU address.
    pub fn mirror_vram_addr(&self, addr: u16) -> (index: u16)
        ensures
            index == mirrored_vram_index(self.mirroring, addr),
            index < vram_size(self.mirroring),
    {
        let vram_index: u16 = addr % 0x1000;
        let name_table: u16 = vram_index / 0x400;
        match self.mirroring {
            Mirroring::Vertical => if name_table >= 2 {
                vram_index - 0x800
            } else {
                vram_index
            },
            Mirroring::Horizontal => if name_table == 3 {
                vram_index - 0x800
            } else if name_table == 0 {
                vram_index
            } else {
                vram_index - 0x400
            },
            Mirroring::FourScreen => vram_index,
        }
    }
}

} // verus!
