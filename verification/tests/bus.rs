use nes_oxide::cpu::cartridge::Cartridge;
use nes_oxide::cpu::cartridge::Mirroring;
use nes_oxide::cpu::joypad::Buttons;
use nes_oxide::cpu::Bus;

fn cartridge(prg_banks: usize) -> Cartridge {
    Cartridge {
        prg_rom: (0..prg_banks * 0x4000).map(|i| (i % 251) as u8).collect(),
        chr_rom: vec![0; 0x2000],
        mapper: 0,
        mirroring: Mirroring::Vertical,
    }
}

fn bus() -> Bus {
    Bus::new(cartridge(1))
}

#[test]
fn power_on_bus() {
    let bus = bus();
    assert_eq!(bus.ram, vec![0u8; 0x800]);
    assert!(!bus.dma_stall);
    assert_eq!(bus.ppu.chr_rom, bus.cartridge.chr_rom);
    assert_eq!(bus.joypad.buttons.bits(), 0);
}

#[test]
fn ram_is_mirrored_every_two_kilobytes() {
    let mut bus = bus();
    bus.write(0x0000, 0x12);
    bus.write(0x1FFF, 0x34);
    bus.write(0x0A55, 0x56);
    for base in [0x0000u16, 0x0800, 0x1000, 0x1800] {
        assert_eq!(bus.read(base), 0x12);
        assert_eq!(bus.read(base + 0x07FF), 0x34);
        assert_eq!(bus.read(base + 0x0255), 0x56);
    }
    assert_eq!(bus.ram[0x000], 0x12);
    assert_eq!(bus.ram[0x7FF], 0x34);
    assert_eq!(bus.ram[0x255], 0x56);
}

#[test]
fn ppu_registers_are_mirrored_every_eight_bytes() {
    let mut bus = bus();
    bus.write(0x3FFE, 0x21);
    bus.write(0x200E, 0x08);
    assert_eq!(bus.ppu.addr.get(), 0x2108);
    bus.write(0x3FF8, 0x84);
    assert_eq!(bus.ppu.ctrl.bits, 0x84);
    bus.write(0x2009, 0x18);
    assert_eq!(bus.ppu.mask.bits, 0x18);
    bus.write(0x2F03, 0x40);
    bus.write(0x2F04, 0x99);
    assert_eq!(bus.ppu.oam_data[0x40], 0x99);
    assert_eq!(bus.read(0x3004 - 0x1000 + 0x1000), 0);
    bus.write(0x2003, 0x40);
    assert_eq!(bus.read(0x3FFC), 0x99);
    bus.ppu.status.update(0x80);
    assert_eq!(bus.read(0x3F02), 0x80);
    assert_eq!(bus.read(0x2002), 0x00);
}

#[test]
fn ppu_data_port_through_the_bus() {
    let mut bus = bus();
    bus.read(0x2002);
    bus.write(0x2006, 0x24);
    bus.write(0x2006, 0x00);
    bus.write(0x2007, 0xAB);
    bus.read(0x2002);
    bus.write(0x2006, 0x2C);
    bus.write(0x2006, 0x00);
    bus.read(0x2007);
    assert_eq!(bus.read(0x2007), 0xAB);
    bus.write(0x2005, 0x11);
    bus.write(0x2005, 0x22);
    assert_eq!((bus.ppu.scroll.x, bus.ppu.scroll.y), (0x11, 0x22));
}

#[test]
fn palette_read_after_two_address_writes() {
    let mut bus = bus();
    bus.ppu.palette_table[0x09] = 0x2C;
    bus.write(0x2006, 0x00);
    bus.read(0x2002);
    bus.write(0x2006, 0x3F);
    bus.write(0x2006, 0x09);
    assert_eq!(bus.read(0x2007), 0x2C);
    bus.read(0x2002);
    bus.write(0x2006, 0xFF);
    bus.write(0x2006, 0x09);
    assert_eq!(bus.ppu.addr.get(), 0x3F09);
    assert_eq!(bus.read(0x2007), 0x2C);
}

#[test]
fn write_only_registers_read_as_zero() {
    let mut bus = bus();
    bus.write(0x2000, 0xFF);
    bus.write(0x2001, 0xFF);
    bus.write(0x2003, 0xFF);
    for addr in [0x2000u16, 0x2001, 0x2003, 0x2005, 0x2006, 0x4014] {
        assert_eq!(bus.read(addr), 0);
    }
}

#[test]
fn status_register_cannot_be_written() {
    let mut bus = bus();
    bus.ppu.status.update(0xA0);
    bus.write(0x2002, 0x00);
    bus.write(0x3FFA, 0x5F);
    assert_eq!(bus.ppu.status.bits(), 0xA0);
}

#[test]
fn single_program_bank_appears_twice() {
    let mut bus = bus();
    assert_eq!(bus.read(0x8000), 0);
    assert_eq!(bus.read(0x8005), 5);
    assert_eq!(bus.read(0xC005), 5);
    assert_eq!(bus.read(0xFFFF), (0x3FFF % 251) as u8);
    assert_eq!(bus.read(0xBFFF), (0x3FFF % 251) as u8);
}

#[test]
fn two_program_banks_fill_the_window() {
    let mut bus = Bus::new(cartridge(2));
    assert_eq!(bus.read(0x8005), 5);
    assert_eq!(bus.read(0xC005), (0x4005 % 251) as u8);
    assert_eq!(bus.read(0xFFFF), (0x7FFF % 251) as u8);
}

#[test]
fn program_rom_ignores_writes() {
    let mut bus = bus();
    bus.write(0x8005, 0xEE);
    bus.write(0xFFFF, 0xEE);
    assert_eq!(bus.read(0x8005), 5);
    assert_eq!(bus.cartridge.prg_rom[5], 5);
}

#[test]
fn unmapped_addresses_read_zero_and_ignore_writes() {
    let mut bus = bus();
    for addr in [0x4000u16, 0x4013, 0x4015, 0x4017, 0x4018, 0x401F, 0x4020, 0x6000, 0x7FFF] {
        bus.write(addr, 0xEE);
        assert_eq!(bus.read(addr), 0);
    }
    assert_eq!(bus.ram, vec![0u8; 0x800]);
    assert!(!bus.dma_stall);
}

#[test]
fn oam_dma_copies_a_page_of_ram() {
    let mut bus = bus();
    for i in 0..256u16 {
        bus.write(0x0300 + i, i as u8);
    }
    bus.write(0x2003, 0x20);
    bus.write(0x4014, 0x03);
    assert!(bus.dma_stall);
    assert_eq!(bus.ppu.oam_addr, 0x20);
    for i in 0..256usize {
        assert_eq!(bus.ppu.oam_data[(0x20 + i) % 256], i as u8);
    }
}

#[test]
fn oam_dma_reads_through_mirrors_and_rom() {
    let mut bus = bus();
    for i in 0..256u16 {
        bus.write(0x0100 + i, 255 - i as u8);
    }
    bus.write(0x4014, 0x09);
    for i in 0..256usize {
        assert_eq!(bus.ppu.oam_data[i], 255 - i as u8);
    }
    bus.write(0x4014, 0x81);
    for i in 0..256usize {
        assert_eq!(bus.ppu.oam_data[i], ((0x100 + i) % 251) as u8);
    }
}

#[test]
fn joypad_is_read_serially_at_4016() {
    let mut bus = bus();
    bus.joypad.buttons.insert(Buttons::SELECT | Buttons::LEFT);
    bus.write(0x4016, 1);
    bus.write(0x4016, 0);
    let bits: Vec<u8> = (0..9).map(|_| bus.read(0x4016)).collect();
    assert_eq!(bits, vec![0, 0, 1, 0, 0, 0, 1, 0, 1]);
}

#[test]
fn words_are_little_endian() {
    let mut bus = bus();
    bus.write(0x0010, 0x34);
    bus.write(0x0011, 0x12);
    assert_eq!(bus.read_u16(0x0010), 0x1234);
    assert_eq!(bus.read_u16(0x0810), 0x1234);
}

#[test]
fn word_read_wraps_at_the_top_of_memory() {
    let mut bus = bus();
    bus.write(0x0000, 0x12);
    let low = (0x3FFF % 251) as u16;
    assert_eq!(bus.read_u16(0xFFFF), 0x1200 | low);
}

#[test]
fn zero_page_word_wraps_inside_the_page() {
    let mut bus = bus();
    bus.write(0x00FF, 0x34);
    bus.write(0x0000, 0x12);
    bus.write(0x0100, 0x56);
    assert_eq!(bus.read_u16_zp(0xFF), 0x1234);
    assert_eq!(bus.read_u16(0x00FF), 0x5634);
    bus.write(0x0080, 0xCD);
    bus.write(0x0081, 0xAB);
    assert_eq!(bus.read_u16_zp(0x80), 0xABCD);
}

#[test]
fn pages_of_ram_repeat_after_eight() {
    let mut bus = bus();
    for i in 0..0x800u16 {
        bus.write(i, (i / 256) as u8 * 16 + (i % 16) as u8);
    }
    assert_eq!(bus.get_page(0).len(), 256);
    assert_eq!(bus.get_page(1), &bus.ram[256..512]);
    assert_eq!(bus.get_page(7), &bus.ram[1792..2048]);
    assert_eq!(bus.get_page(9), &bus.ram[256..512]);
    assert_eq!(bus.get_page(255), &bus.ram[1792..2048]);
    assert_eq!(bus.get_page(3)[0x11], 0x31);
}

#[test]
fn peek_returns_what_a_read_would_and_changes_nothing() {
    let mut bus = bus();
    bus.write(0x0042, 0x99);
    bus.joypad.buttons.insert(Buttons::BUTTON_A);
    bus.write(0x4016, 0);
    bus.ppu.status.update(0xC0);
    bus.write(0x2006, 0x20);
    bus.write(0x2006, 0x00);
    bus.write(0x2007, 0x5A);
    bus.write(0x2006, 0x20);
    bus.write(0x2006, 0x00);
    bus.read(0x2007);
    bus.write(0x2003, 0x07);
    bus.write(0x2004, 0x77);
    bus.write(0x2003, 0x07);
    for addr in [0x0042u16, 0x0842, 0x2002, 0x2004, 0x2007, 0x3FFF, 0x4016, 0x8123, 0x5000, 0x2000] {
        let expected = bus.peek(addr);
        assert_eq!(bus.peek(addr), expected);
        assert_eq!(bus.read(addr), expected);
    }
    bus.ppu.status.update(0xC0);
    assert_eq!(bus.peek(0x2002), 0xC0);
    assert_eq!(bus.ppu.status.bits(), 0xC0);
    let address = bus.ppu.addr.get();
    bus.peek(0x2007);
    assert_eq!(bus.ppu.addr.get(), address);
    bus.ppu.palette_table[3] = 0x21;
    bus.read(0x2002);
    bus.write(0x2006, 0x3F);
    bus.write(0x2006, 0x03);
    assert_eq!(bus.peek(0x2007), 0x21);
    assert_eq!(bus.ppu.addr.get(), 0x3F03);
}

#[test]
fn well_formed_bus_has_its_sizes() {
    let mut bus = bus();
    assert!(bus.well_formed());
    bus.ram.push(0);
    assert!(!bus.well_formed());
    bus.ram.pop();
    bus.joypad.button_index = 9;
    assert!(!bus.well_formed());
    bus.joypad.button_index = 8;
    assert!(bus.well_formed());
    bus.ppu.cycle = 341;
    assert!(!bus.well_formed());
    assert!(!bus.ppu.well_formed());
    bus.ppu.cycle = 340;
    bus.ppu.scanline = 262;
    assert!(!bus.ppu.well_formed());
    bus.ppu.scanline = 261;
    bus.ppu.addr.value = (0x40, 0x00);
    assert!(!bus.ppu.well_formed());
    bus.ppu.addr.value = (0x3F, 0xFF);
    assert!(bus.well_formed());
    bus.ppu.vram.truncate(100);
    assert!(!bus.well_formed());
    let short = Bus::new(Cartridge {
        prg_rom: vec![0; 0x2000],
        chr_rom: vec![0; 0x2000],
        mapper: 0,
        mirroring: Mirroring::Horizontal,
    });
    assert!(!short.well_formed());
    assert!(short.ppu.well_formed());
    let no_chr = Bus::new(Cartridge {
        prg_rom: vec![0; 0x8000],
        chr_rom: vec![],
        mapper: 0,
        mirroring: Mirroring::FourScreen,
    });
    assert!(!no_chr.well_formed());
    assert!(!no_chr.ppu.renderable());
}
