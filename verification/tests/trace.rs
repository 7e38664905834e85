use nes_oxide::cpu::cartridge::Cartridge;
use nes_oxide::cpu::cartridge::Mirroring;
use nes_oxide::cpu::Bus;
use nes_oxide::cpu::Cpu;

fn machine(origin: u16, program: &[u8]) -> Cpu {
    let mut prg = vec![0xEAu8; 0x4000];
    let start = (origin as usize - 0x8000) % 0x4000;
    prg[start..start + program.len()].copy_from_slice(program);
    prg[0x3FFC] = (origin & 0xFF) as u8;
    prg[0x3FFD] = (origin >> 8) as u8;
    let cartridge =
        Cartridge { prg_rom: prg, chr_rom: vec![0; 0x2000], mapper: 0, mirroring: Mirroring::Vertical };
    Cpu::new(Bus::new(cartridge))
}

fn disassembled(cpu: &Cpu, expected: &str, length: u16) {
    let (text, next) = cpu.trace_instruction(cpu.pc);
    assert_eq!(text, expected);
    assert_eq!(next, cpu.pc.wrapping_add(length));
}

#[test]
fn trace_line_of_the_first_instruction() {
    let cpu = machine(0xC000, &[0x4C, 0xF5, 0xC5]);
    let (line, next) = cpu.trace();
    assert_eq!(
        line,
        "C000  4C F5 C5  JMP $C5F5                       A:00 X:00 Y:00 P:24 SP:FD CYC:7\n"
    );
    assert_eq!(next, 0xC003);
}

#[test]
fn trace_line_shows_registers_and_cycles() {
    let mut cpu = machine(0xC5F5, &[0xA2, 0x00]);
    cpu.r_a = 0xAB;
    cpu.r_x = 0x0C;
    cpu.r_y = 0xF0;
    cpu.status.bits = 0xE5;
    cpu.sp = 0x7A;
    cpu.cycle = 1234567890123;
    let (line, next) = cpu.trace();
    assert_eq!(
        line,
        "C5F5  A2 00     LDX #$00                        A:AB X:0C Y:F0 P:E5 SP:7A CYC:1234567890123\n"
    );
    assert_eq!(next, 0xC5F7);
    cpu.cycle = 0;
    assert!(cpu.trace().0.ends_with(" SP:7A CYC:0\n"));
    cpu.cycle = u64::MAX;
    assert!(cpu.trace().0.ends_with(" CYC:18446744073709551615\n"));
}

#[test]
fn trace_follows_execution() {
    let mut cpu = machine(0xC000, &[0xA9, 0x10, 0x85, 0x20, 0xE6, 0x20, 0xD0, 0xFC]);
    let mut lines = String::new();
    for _ in 0..5 {
        lines.push_str(&cpu.trace().0);
        cpu.step();
    }
    assert_eq!(
        lines,
        "C000  A9 10     LDA #$10                        A:00 X:00 Y:00 P:24 SP:FD CYC:7\n\
         C002  85 20     STA $20 = 00                    A:10 X:00 Y:00 P:24 SP:FD CYC:9\n\
         C004  E6 20     INC $20 = 10                    A:10 X:00 Y:00 P:24 SP:FD CYC:12\n\
         C006  D0 FC     BNE $C004                       A:10 X:00 Y:00 P:24 SP:FD CYC:17\n\
         C004  E6 20     INC $20 = 11                    A:10 X:00 Y:00 P:24 SP:FD CYC:20\n"
    );
}

#[test]
fn trace_changes_nothing() {
    let mut cpu = machine(0x8000, &[0xAD, 0x02, 0x20, 0xAD, 0x07, 0x20, 0xAD, 0x16, 0x40]);
    cpu.bus.ppu.status.update(0x80);
    cpu.bus.ppu.data_buffer = 0x5E;
    cpu.bus.write(0x2006, 0x21);
    let address = cpu.bus.ppu.addr.value;
    disassembled(&cpu, "8000  AD 02 20  LDA $2002 = 80", 3);
    disassembled(&cpu, "8000  AD 02 20  LDA $2002 = 80", 3);
    cpu.pc = 0x8003;
    disassembled(&cpu, "8003  AD 07 20  LDA $2007 = 5E", 3);
    cpu.pc = 0x8006;
    disassembled(&cpu, "8006  AD 16 40  LDA $4016 = 00", 3);
    assert_eq!(cpu.bus.ppu.status.bits(), 0x80);
    assert_eq!(cpu.bus.ppu.addr.value, address);
    assert!(!cpu.bus.ppu.addr.high_byte);
    assert_eq!(cpu.bus.joypad.button_index, 0);
}

#[test]
fn disassembly_of_implied_and_accumulator() {
    let mut cpu = machine(0xC72D, &[0xEA, 0x0A, 0x6A, 0x60, 0x00]);
    disassembled(&cpu, "C72D  EA        NOP", 1);
    cpu.pc = 0xC72E;
    disassembled(&cpu, "C72E  0A        ASL A", 1);
    cpu.pc = 0xC72F;
    disassembled(&cpu, "C72F  6A        ROR A", 1);
    cpu.pc = 0xC730;
    disassembled(&cpu, "C730  60        RTS", 1);
    cpu.pc = 0xC731;
    disassembled(&cpu, "C731  00        BRK", 1);
}

#[test]
fn disassembly_of_immediate_and_zero_page() {
    let mut cpu = machine(0x8000, &[0xA9, 0xFF, 0xA5, 0x10, 0xB5, 0xF0, 0xB6, 0xF0, 0x86, 0x00]);
    cpu.bus.ram[0x10] = 0x5A;
    cpu.bus.ram[0x0F] = 0xC3;
    cpu.bus.ram[0xF1] = 0x3C;
    cpu.r_x = 0x1F;
    cpu.r_y = 0x01;
    disassembled(&cpu, "8000  A9 FF     LDA #$FF", 2);
    cpu.pc = 0x8002;
    disassembled(&cpu, "8002  A5 10     LDA $10 = 5A", 2);
    cpu.pc = 0x8004;
    disassembled(&cpu, "8004  B5 F0     LDA $F0,X @ 0F = C3", 2);
    cpu.pc = 0x8006;
    disassembled(&cpu, "8006  B6 F0     LDX $F0,Y @ F1 = 3C", 2);
    cpu.pc = 0x8008;
    disassembled(&cpu, "8008  86 00     STX $00 = 00", 2);
}

#[test]
fn disassembly_of_absolute_modes() {
    let mut cpu = machine(0x8000, &[0xAD, 0x00, 0x03, 0xBD, 0xF0, 0x02, 0xB9, 0xFF, 0x07, 0x20, 0x2D, 0xC7, 0x8D, 0x01, 0x03]);
    cpu.bus.ram[0x300] = 0x89;
    cpu.bus.ram[0x310] = 0x77;
    cpu.bus.ram[0x001] = 0x66;
    cpu.r_x = 0x20;
    cpu.r_y = 0x02;
    disassembled(&cpu, "8000  AD 00 03  LDA $0300 = 89", 3);
    cpu.pc = 0x8003;
    disassembled(&cpu, "8003  BD F0 02  LDA $02F0,X @ 0310 = 77", 3);
    cpu.pc = 0x8006;
    disassembled(&cpu, "8006  B9 FF 07  LDA $07FF,Y @ 0801 = 66", 3);
    cpu.pc = 0x8009;
    disassembled(&cpu, "8009  20 2D C7  JSR $C72D", 3);
    cpu.pc = 0x800C;
    disassembled(&cpu, "800C  8D 01 03  STA $0301 = 00", 3);
}

#[test]
fn disassembly_of_indirect_modes() {
    let mut cpu = machine(0x8000, &[0x6C, 0x00, 0x02, 0x6C, 0xFF, 0x02, 0xA1, 0x80, 0xB1, 0x89, 0xA1, 0xFF]);
    cpu.bus.ram[0x200] = 0x7E;
    cpu.bus.ram[0x201] = 0xDB;
    cpu.bus.ram[0x2FF] = 0x00;
    cpu.bus.ram[0x300] = 0x55;
    cpu.bus.ram[0x82] = 0x00;
    cpu.bus.ram[0x83] = 0x02;
    cpu.bus.ram[0x89] = 0xFF;
    cpu.bus.ram[0x8A] = 0x02;
    cpu.bus.ram[0x01] = 0x00;
    cpu.bus.ram[0x02] = 0x03;
    cpu.r_x = 0x02;
    cpu.r_y = 0x01;
    disassembled(&cpu, "8000  6C 00 02  JMP ($0200) = DB7E", 3);
    cpu.pc = 0x8003;
    disassembled(&cpu, "8003  6C FF 02  JMP ($02FF) = 7E00", 3);
    cpu.pc = 0x8006;
    disassembled(&cpu, "8006  A1 80     LDA ($80,X) @ 82 = 0200 = 7E", 2);
    cpu.pc = 0x8008;
    disassembled(&cpu, "8008  B1 89     LDA ($89),Y = 02FF @ 0300 = 55", 2);
    cpu.pc = 0x800A;
    disassembled(&cpu, "800A  A1 FF     LDA ($FF,X) @ 01 = 0300 = 55", 2);
}

#[test]
fn disassembly_of_branches() {
    let mut cpu = machine(0xC735, &[0xB0, 0x04, 0xD0, 0xFC, 0x10, 0x80]);
    disassembled(&cpu, "C735  B0 04     BCS $C73B", 2);
    cpu.pc = 0xC737;
    disassembled(&cpu, "C737  D0 FC     BNE $C735", 2);
    cpu.pc = 0xC739;
    disassembled(&cpu, "C739  10 80     BPL $C6BB", 2);
}

#[test]
fn disassembly_of_illegal_opcodes_and_other_addresses() {
    let mut cpu = machine(0x8000, &[0x02]);
    disassembled(&cpu, "8000  02        NOP", 1);
    cpu.bus.ram[0x7FF] = 0xAD;
    cpu.bus.ram[0x000] = 0x34;
    cpu.bus.ram[0x001] = 0x02;
    cpu.bus.ram[0x234] = 0x9A;
    let (text, next) = cpu.trace_instruction(0x07FF);
    assert_eq!(text, "07FF  AD 34 02  LDA $0234 = 9A");
    assert_eq!(next, 0x0802);
    let (_, wrapped) = cpu.trace_instruction(0xFFFF);
    assert_eq!(wrapped, 0x0000);
}

#[test]
fn trace_through_a_call_and_a_branch() {
    let mut cpu = machine(0xC000, &[0x4C, 0xF5, 0xC5]);
    let routine = [0xA2, 0x00, 0x86, 0x00, 0x86, 0x10, 0x86, 0x11, 0x20, 0x2D, 0xC7];
    cpu.bus.cartridge.prg_rom[0x05F5..0x05F5 + routine.len()].copy_from_slice(&routine);
    let callee = [0xEA, 0x38, 0xB0, 0x04, 0x00, 0x00, 0x00, 0x00, 0xEA, 0x18, 0xB0, 0x03, 0x90, 0x0A];
    cpu.bus.cartridge.prg_rom[0x072D..0x072D + callee.len()].copy_from_slice(&callee);
    let mut lines = String::new();
    for _ in 0..14 {
        lines.push_str(&cpu.trace().0);
        cpu.step();
    }
    assert_eq!(
        lines,
        "C000  4C F5 C5  JMP $C5F5                       A:00 X:00 Y:00 P:24 SP:FD CYC:7\n\
         C5F5  A2 00     LDX #$00                        A:00 X:00 Y:00 P:24 SP:FD CYC:10\n\
         C5F7  86 00     STX $00 = 00                    A:00 X:00 Y:00 P:26 SP:FD CYC:12\n\
         C5F9  86 10     STX $10 = 00                    A:00 X:00 Y:00 P:26 SP:FD CYC:15\n\
         C5FB  86 11     STX $11 = 00                    A:00 X:00 Y:00 P:26 SP:FD CYC:18\n\
         C5FD  20 2D C7  JSR $C72D                       A:00 X:00 Y:00 P:26 SP:FD CYC:21\n\
         C72D  EA        NOP                             A:00 X:00 Y:00 P:26 SP:FB CYC:27\n\
         C72E  38        SEC                             A:00 X:00 Y:00 P:26 SP:FB CYC:29\n\
         C72F  B0 04     BCS $C735                       A:00 X:00 Y:00 P:27 SP:FB CYC:31\n\
         C735  EA        NOP                             A:00 X:00 Y:00 P:27 SP:FB CYC:34\n\
         C736  18        CLC                             A:00 X:00 Y:00 P:27 SP:FB CYC:36\n\
         C737  B0 03     BCS $C73C                       A:00 X:00 Y:00 P:26 SP:FB CYC:38\n\
         C739  90 0A     BCC $C745                       A:00 X:00 Y:00 P:26 SP:FB CYC:40\n\
         C745  EA        NOP                             A:00 X:00 Y:00 P:26 SP:FB CYC:43\n"
    );
    assert_eq!((cpu.bus.ram[0x1FD], cpu.bus.ram[0x1FC]), (0xC5, 0xFF));
}
