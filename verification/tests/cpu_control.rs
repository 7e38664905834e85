use nes_oxide::cpu::cartridge::Cartridge;
use nes_oxide::cpu::cartridge::Mirroring;
use nes_oxide::cpu::cpu::CpuStatusRegister;
use nes_oxide::cpu::instructions::AddressingMode;
use nes_oxide::cpu::instructions::Instruction;
use nes_oxide::cpu::instructions::Operation;
use nes_oxide::cpu::Bus;
use nes_oxide::cpu::Controller;
use nes_oxide::cpu::Cpu;

const C: u8 = CpuStatusRegister::C;
const Z: u8 = CpuStatusRegister::Z;
const I: u8 = CpuStatusRegister::I;
const D: u8 = CpuStatusRegister::D;
const B: u8 = CpuStatusRegister::B;
const U: u8 = CpuStatusRegister::U;
const V: u8 = CpuStatusRegister::V;
const N: u8 = CpuStatusRegister::N;

fn machine_at(origin: u16, program: &[u8], nmi: &[u8], brk: &[u8]) -> Cpu {
    let mut prg = vec![0xEAu8; 0x4000];
    let start = (origin - 0x8000) as usize;
    prg[start..start + program.len()].copy_from_slice(program);
    prg[0x1000..0x1000 + nmi.len()].copy_from_slice(nmi);
    prg[0x2000..0x2000 + brk.len()].copy_from_slice(brk);
    prg[0x3FFA] = 0x00;
    prg[0x3FFB] = 0x90;
    prg[0x3FFC] = (origin & 0xFF) as u8;
    prg[0x3FFD] = (origin >> 8) as u8;
    prg[0x3FFE] = 0x00;
    prg[0x3FFF] = 0xA0;
    let cartridge =
        Cartridge { prg_rom: prg, chr_rom: vec![0; 0x2000], mapper: 0, mirroring: Mirroring::Vertical };
    Cpu::new(Bus::new(cartridge))
}

fn machine(program: &[u8]) -> Cpu {
    machine_at(0x8000, program, &[], &[])
}

fn run(cpu: &mut Cpu, steps: usize) {
    for _ in 0..steps {
        cpu.step();
    }
}

#[test]
fn reset_reads_the_vector() {
    let cpu = machine_at(0x8765, &[], &[], &[]);
    assert_eq!(cpu.pc, 0x8765);
    assert_eq!(cpu.sp, 0xFD);
    assert_eq!((cpu.r_a, cpu.r_x, cpu.r_y), (0, 0, 0));
    assert_eq!(cpu.status.bits, U | I);
    assert_eq!(cpu.cycle, 7);
    assert!(!cpu.controller.pause && !cpu.controller.step_mode && !cpu.controller.quit);
}

#[test]
fn reset_vector_may_point_anywhere() {
    let mut prg = vec![0u8; 0x8000];
    prg[0x7FFC] = 0x34;
    prg[0x7FFD] = 0x12;
    let cartridge =
        Cartridge { prg_rom: prg, chr_rom: vec![0; 0x2000], mapper: 0, mirroring: Mirroring::Horizontal };
    let cpu = Cpu::new(Bus::new(cartridge));
    assert_eq!(cpu.pc, 0x1234);
}

#[test]
fn push_writes_then_moves_down() {
    let mut cpu = machine(&[]);
    cpu.push(0xAB);
    assert_eq!(cpu.sp, 0xFC);
    assert_eq!(cpu.bus.ram[0x1FD], 0xAB);
    cpu.push_u16(0x1234);
    assert_eq!(cpu.sp, 0xFA);
    assert_eq!(cpu.bus.ram[0x1FC], 0x12);
    assert_eq!(cpu.bus.ram[0x1FB], 0x34);
    assert_eq!(cpu.pop_u16(), 0x1234);
    assert_eq!(cpu.pop(), 0xAB);
    assert_eq!(cpu.sp, 0xFD);
}

#[test]
fn stack_pointer_wraps_both_ways() {
    let mut cpu = machine(&[]);
    cpu.sp = 0x00;
    cpu.push(0x11);
    assert_eq!(cpu.sp, 0xFF);
    assert_eq!(cpu.bus.ram[0x100], 0x11);
    cpu.push(0x22);
    assert_eq!(cpu.sp, 0xFE);
    assert_eq!(cpu.bus.ram[0x1FF], 0x22);
    assert_eq!(cpu.pop(), 0x22);
    assert_eq!(cpu.sp, 0xFF);
    assert_eq!(cpu.pop(), 0x11);
    assert_eq!(cpu.sp, 0x00);
    cpu.sp = 0x00;
    cpu.push_u16(0xBEEF);
    assert_eq!(cpu.sp, 0xFE);
    assert_eq!((cpu.bus.ram[0x100], cpu.bus.ram[0x1FF]), (0xBE, 0xEF));
    assert_eq!(cpu.pop_u16(), 0xBEEF);
}

#[test]
fn pha_pla_round_trip() {
    let mut cpu = machine(&[0xA9, 0x80, 0x48, 0xA9, 0x00, 0x68]);
    run(&mut cpu, 2);
    assert_eq!(cpu.sp, 0xFC);
    assert_eq!(cpu.bus.ram[0x1FD], 0x80);
    cpu.step();
    assert_eq!(cpu.status.bits, U | I | Z);
    cpu.step();
    assert_eq!(cpu.r_a, 0x80);
    assert_eq!(cpu.status.bits, U | I | N);
    assert_eq!(cpu.sp, 0xFD);
    assert_eq!(cpu.cycle, 7 + 2 + 3 + 2 + 4);
}

#[test]
fn pla_of_zero_sets_zero() {
    let mut cpu = machine(&[0xA9, 0x00, 0x48, 0xA9, 0x55, 0x68]);
    run(&mut cpu, 4);
    assert_eq!(cpu.r_a, 0x00);
    assert_eq!(cpu.status.bits, U | I | Z);
}

#[test]
fn php_pushes_break_and_unused() {
    let mut cpu = machine(&[0x08]);
    cpu.status.bits = C | N;
    cpu.step();
    assert_eq!(cpu.bus.ram[0x1FD], C | N | B | U);
    assert_eq!(cpu.status.bits, C | N);
    assert_eq!(cpu.sp, 0xFC);
}

#[test]
fn php_plp_round_trip() {
    let mut cpu = machine(&[0x08, 0xA9, 0x00, 0x18, 0xB8, 0x28]);
    cpu.status.bits = C | D | V | N | U;
    run(&mut cpu, 4);
    assert_eq!(cpu.status.bits, D | U | Z);
    cpu.step();
    assert_eq!(cpu.status.bits, C | D | V | N | U);
    assert_eq!(cpu.sp, 0xFD);
    assert_eq!(cpu.cycle, 7 + 3 + 2 + 2 + 2 + 4);
}

#[test]
fn plp_clears_break_and_sets_unused() {
    let mut cpu = machine(&[0x28, 0x28]);
    cpu.sp = 0xFB;
    cpu.bus.ram[0x1FC] = 0xFF;
    cpu.bus.ram[0x1FD] = 0x00;
    cpu.step();
    assert_eq!(cpu.status.bits, 0xFF & !B);
    cpu.step();
    assert_eq!(cpu.status.bits, U);
}

#[test]
fn jsr_rts_round_trip() {
    let mut cpu = machine(&[0x20, 0x10, 0x80, 0xA9, 0x01]);
    cpu.bus.ram[0x00] = 0;
    let cartridge_return = 0x8003;
    cpu.step();
    assert_eq!(cpu.pc, 0x8010);
    assert_eq!(cpu.sp, 0xFB);
    assert_eq!((cpu.bus.ram[0x1FD], cpu.bus.ram[0x1FC]), (0x80, 0x02));
    assert_eq!(cpu.cycle, 13);
    let mut callee = machine_at(0x8010, &[0x60], &[], &[]);
    callee.sp = 0xFB;
    callee.bus.ram[0x1FD] = 0x80;
    callee.bus.ram[0x1FC] = 0x02;
    callee.step();
    assert_eq!(callee.pc, cartridge_return);
    assert_eq!(callee.sp, 0xFD);
    assert_eq!(callee.cycle, 13);
}

#[test]
fn subroutine_returns_behind_the_call() {
    let mut program = vec![0xEAu8; 0x20];
    program[0..3].copy_from_slice(&[0x20, 0x10, 0x80]);
    program[3..5].copy_from_slice(&[0xA2, 0x07]);
    program[0x10..0x13].copy_from_slice(&[0xA9, 0x33, 0x60]);
    let mut cpu = machine(&program);
    run(&mut cpu, 3);
    assert_eq!(cpu.pc, 0x8003);
    assert_eq!(cpu.r_a, 0x33);
    cpu.step();
    assert_eq!(cpu.r_x, 0x07);
    assert_eq!(cpu.sp, 0xFD);
}

#[test]
fn jump_absolute() {
    let mut cpu = machine(&[0x4C, 0x34, 0x92]);
    cpu.step();
    assert_eq!(cpu.pc, 0x9234);
    assert_eq!(cpu.cycle, 10);
    assert_eq!(cpu.sp, 0xFD);
}

#[test]
fn jump_indirect_does_not_carry_into_the_page() {
    let mut cpu = machine(&[0x6C, 0xFF, 0x02]);
    cpu.bus.ram[0x2FF] = 0x34;
    cpu.bus.ram[0x200] = 0x12;
    cpu.bus.ram[0x300] = 0x56;
    cpu.step();
    assert_eq!(cpu.pc, 0x1234);
    assert_eq!(cpu.cycle, 12);
}

#[test]
fn jump_indirect_inside_a_page() {
    let mut cpu = machine(&[0x6C, 0x10, 0x02]);
    cpu.bus.ram[0x210] = 0xCD;
    cpu.bus.ram[0x211] = 0xAB;
    cpu.step();
    assert_eq!(cpu.pc, 0xABCD);
}

#[test]
fn branch_not_taken_costs_nothing_extra() {
    let mut cpu = machine(&[0xF0, 0x10]);
    cpu.step();
    assert_eq!(cpu.pc, 0x8002);
    assert_eq!(cpu.cycle, 9);
}

#[test]
fn branch_taken_inside_the_page_costs_one_cycle() {
    let mut cpu = machine(&[0xD0, 0x10]);
    cpu.step();
    assert_eq!(cpu.pc, 0x8012);
    assert_eq!(cpu.cycle, 10);
}

#[test]
fn branch_taken_into_another_page_costs_two_cycles() {
    let mut cpu = machine_at(0x80F0, &[0xD0, 0x20], &[], &[]);
    cpu.step();
    assert_eq!(cpu.pc, 0x8112);
    assert_eq!(cpu.cycle, 11);
}

#[test]
fn branch_backwards() {
    let mut cpu = machine_at(0x8100, &[0xD0, 0xFE], &[], &[]);
    cpu.step();
    assert_eq!(cpu.pc, 0x8100);
    assert_eq!(cpu.cycle, 10);
    let mut crossing = machine_at(0x8100, &[0xD0, 0xFB], &[], &[]);
    crossing.step();
    assert_eq!(crossing.pc, 0x80FD);
    assert_eq!(crossing.cycle, 11);
}

#[test]
fn branch_function_adds_the_signed_offset() {
    let mut cpu = machine(&[]);
    cpu.pc = 0x1000;
    assert_eq!(cpu.branch(0x7F), 1);
    assert_eq!(cpu.pc, 0x107F);
    assert_eq!(cpu.branch(0x80), 2);
    assert_eq!(cpu.pc, 0x0FFF);
    assert_eq!(cpu.branch(0x01), 2);
    assert_eq!(cpu.pc, 0x1000);
    cpu.pc = 0x0000;
    assert_eq!(cpu.branch(0xFF), 2);
    assert_eq!(cpu.pc, 0xFFFF);
    assert!(Cpu::page_cross(0x12F0, 0x1310));
    assert!(!Cpu::page_cross(0x1200, 0x12FF));
}

#[test]
fn every_branch_tests_its_flag() {
    let cases: [(u8, u8, bool); 8] = [
        (0x10, N, false),
        (0x30, N, true),
        (0x50, V, false),
        (0x70, V, true),
        (0x90, C, false),
        (0xB0, C, true),
        (0xD0, Z, false),
        (0xF0, Z, true),
    ];
    for (opcode, flag, when_set) in cases {
        let mut set = machine(&[opcode, 0x04]);
        set.status.bits = U | flag;
        set.step();
        assert_eq!(set.pc, if when_set { 0x8006 } else { 0x8002 });
        let mut clear = machine(&[opcode, 0x04]);
        clear.status.bits = 0xFF & !flag;
        clear.step();
        assert_eq!(clear.pc, if when_set { 0x8002 } else { 0x8006 });
    }
}

#[test]
fn brk_pushes_the_address_behind_its_padding() {
    let mut cpu = machine_at(0x8000, &[0x00, 0xFF, 0xA9, 0x01], &[], &[0x40]);
    cpu.status.bits = U | C;
    cpu.step();
    assert_eq!(cpu.pc, 0xA000);
    assert_eq!(cpu.sp, 0xFA);
    assert_eq!((cpu.bus.ram[0x1FD], cpu.bus.ram[0x1FC]), (0x80, 0x02));
    assert_eq!(cpu.bus.ram[0x1FB], U | C | B);
    assert_eq!(cpu.status.bits, U | C | I);
    assert_eq!(cpu.cycle, 14);
    cpu.step();
    assert_eq!(cpu.pc, 0x8002);
    assert_eq!(cpu.status.bits, U | C);
    assert_eq!(cpu.sp, 0xFD);
    assert_eq!(cpu.cycle, 20);
}

#[test]
fn rti_restores_flags_and_program_counter() {
    let mut cpu = machine(&[0x40]);
    cpu.sp = 0xFA;
    cpu.bus.ram[0x1FB] = 0xFF;
    cpu.bus.ram[0x1FC] = 0x21;
    cpu.bus.ram[0x1FD] = 0x43;
    cpu.step();
    assert_eq!(cpu.pc, 0x4321);
    assert_eq!(cpu.status.bits, 0xFF & !B);
    assert_eq!(cpu.sp, 0xFD);
}

#[test]
fn pending_interrupt_is_serviced_before_the_fetch() {
    let mut cpu = machine_at(0x8000, &[0xA9, 0x01], &[0xA2, 0x05, 0x40], &[]);
    cpu.status.bits = U | Z;
    cpu.bus.ppu.nmi_interrupt = Some(1);
    cpu.step();
    assert_eq!(cpu.bus.ppu.nmi_interrupt, None);
    assert_eq!((cpu.bus.ram[0x1FD], cpu.bus.ram[0x1FC]), (0x80, 0x00));
    assert_eq!(cpu.bus.ram[0x1FB], U | Z);
    assert_eq!(cpu.r_x, 0x05);
    assert_eq!(cpu.pc, 0x9002);
    assert_eq!(cpu.status.bits, U | I);
    assert_eq!(cpu.cycle, 7 + 7 + 2);
    assert_eq!(cpu.bus.ppu.cycle, 27);
    cpu.step();
    assert_eq!(cpu.pc, 0x8000);
    assert_eq!(cpu.status.bits, U | Z);
    cpu.step();
    assert_eq!(cpu.r_a, 0x01);
}

#[test]
fn interrupt_poll_pushes_status_without_break() {
    let mut cpu = machine(&[]);
    cpu.status.bits = 0xFF;
    cpu.pc = 0x1234;
    assert_eq!(cpu.poll_interrupt(), 0);
    assert_eq!(cpu.pc, 0x1234);
    cpu.bus.ppu.nmi_interrupt = Some(1);
    assert_eq!(cpu.poll_interrupt(), 7);
    assert_eq!(cpu.pc, 0x9000);
    assert_eq!(cpu.bus.ram[0x1FB], 0xFF & !B);
    assert_eq!((cpu.bus.ram[0x1FD], cpu.bus.ram[0x1FC]), (0x12, 0x34));
    assert_eq!(cpu.bus.ppu.nmi_interrupt, None);
}

#[test]
fn one_interrupt_per_frame() {
    let program = [0xA9, 0x80, 0x8D, 0x00, 0x20, 0x4C, 0x05, 0x80];
    let handler = [0xE6, 0x10, 0x40];
    let mut cpu = machine_at(0x8000, &program, &handler, &[]);
    let mut frames = 0;
    while cpu.cycle < 7 + 29781 {
        if cpu.step() {
            frames += 1;
        }
    }
    assert_eq!(cpu.bus.ram[0x10], 1);
    assert_eq!(frames, 1);
    while cpu.cycle < 7 + 2 * 29781 {
        cpu.step();
    }
    assert_eq!(cpu.bus.ram[0x10], 2);
}

#[test]
fn status_read_at_vblank_reports_it_once() {
    let mut cpu = machine(&[0x4C, 0x00, 0x80]);
    while cpu.bus.ppu.scanline != 241 {
        cpu.step();
    }
    assert_eq!(cpu.bus.read(0x2002) & 0x80, 0x80);
    assert_eq!(cpu.bus.read(0x2002) & 0x80, 0x00);
    assert_eq!(cpu.bus.ppu.nmi_interrupt, None);
}

#[test]
fn frame_completes_after_89342_dots() {
    let mut cpu = machine(&[0x4C, 0x00, 0x80]);
    let mut steps = 0;
    loop {
        steps += 1;
        if cpu.step() {
            break;
        }
    }
    assert_eq!(steps, 9927);
    assert_eq!(cpu.cycle, 7 + 3 * 9927);
    assert_eq!(cpu.bus.ppu.scanline, 0);
    assert_eq!(cpu.bus.ppu.cycle, (9 * 9927 - 89342) as u64);
}

#[test]
fn ppu_runs_three_dots_per_cycle() {
    let mut cpu = machine(&[0xEA, 0xA5, 0x00, 0xFE, 0x00, 0x03]);
    cpu.step();
    assert_eq!(cpu.bus.ppu.cycle, 6);
    cpu.step();
    assert_eq!(cpu.bus.ppu.cycle, 15);
    cpu.step();
    assert_eq!(cpu.bus.ppu.cycle, 36);
    assert_eq!(cpu.cycle, 7 + 2 + 3 + 7);
}

#[test]
fn oam_dma_stalls_for_513_cycles_on_an_even_cycle() {
    let mut cpu = machine(&[0xA5, 0x00, 0x8D, 0x14, 0x40]);
    cpu.bus.ram[0x00] = 0x03;
    for i in 0..256usize {
        cpu.bus.ram[0x300 + i] = i as u8;
    }
    cpu.step();
    assert_eq!(cpu.cycle, 10);
    cpu.step();
    assert_eq!(cpu.cycle, 14 + 513);
    assert!(!cpu.bus.dma_stall);
    assert_eq!(cpu.bus.ppu.oam_data[0x80], 0x80);
    let dots = 3 * (3 + 4 + 513);
    assert_eq!(cpu.bus.ppu.scanline, (dots / 341) as u64);
    assert_eq!(cpu.bus.ppu.cycle, (dots % 341) as u64);
}

#[test]
fn oam_dma_stalls_for_514_cycles_on_an_odd_cycle() {
    let mut cpu = machine(&[0xA9, 0x03, 0x8D, 0x14, 0x40, 0xEA]);
    run(&mut cpu, 2);
    assert_eq!(cpu.cycle, 13 + 514);
    cpu.step();
    assert_eq!(cpu.cycle, 13 + 514 + 2);
}

#[test]
fn illegal_opcodes_do_nothing_in_no_time() {
    let mut cpu = machine(&[0x02, 0xFF, 0x80]);
    let flags = cpu.status.bits;
    run(&mut cpu, 3);
    assert_eq!(cpu.pc, 0x8003);
    assert_eq!(cpu.cycle, 7);
    assert_eq!(cpu.status.bits, flags);
    assert_eq!((cpu.r_a, cpu.r_x, cpu.r_y, cpu.sp), (0, 0, 0, 0xFD));
    assert_eq!(cpu.bus.ppu.cycle, 0);
}

#[test]
fn paused_machine_executes_nothing() {
    let mut cpu = machine(&[0xA9, 0x01]);
    cpu.controller.pause = true;
    assert!(!cpu.step());
    assert_eq!((cpu.pc, cpu.r_a, cpu.cycle), (0x8000, 0, 7));
    cpu.controller.pause = false;
    cpu.step();
    assert_eq!((cpu.pc, cpu.r_a, cpu.cycle), (0x8002, 1, 9));
    assert!(!cpu.controller.pause);
}

#[test]
fn step_mode_pauses_after_every_instruction() {
    let mut cpu = machine(&[0xA9, 0x01, 0xA2, 0x02]);
    cpu.controller.step_mode = true;
    cpu.step();
    assert!(cpu.controller.pause);
    assert_eq!(cpu.r_a, 1);
    cpu.step();
    assert_eq!(cpu.r_x, 0);
    cpu.controller.pause = false;
    cpu.step();
    assert_eq!(cpu.r_x, 2);
    assert!(cpu.controller.pause);
    let controller = Controller::default();
    assert!(!controller.step_mode && !controller.pause && !controller.quit);
}

#[test]
fn decode_table_knows_the_official_opcodes() {
    let official = (0..=255u8).filter(|opcode| Instruction::from_u8(*opcode).cycles > 0).count();
    assert_eq!(official, 151);
    for opcode in 0..=255u8 {
        let instruction = Instruction::from_u8(opcode);
        assert!(instruction.operation != Operation::UnknownOperation);
        if instruction.cycles == 0 {
            assert!(instruction.operation == Operation::NOP);
            assert!(instruction.address_mode == AddressingMode::Implied);
        } else {
            assert!((2..=7).contains(&instruction.cycles));
        }
    }
}

#[test]
fn decode_table_rows() {
    let rows: [(u8, Operation, AddressingMode, u8); 24] = [
        (0x00, Operation::BRK, AddressingMode::Implied, 7),
        (0x20, Operation::JSR, AddressingMode::Absolute, 6),
        (0x40, Operation::RTI, AddressingMode::Implied, 6),
        (0x60, Operation::RTS, AddressingMode::Implied, 6),
        (0x4C, Operation::JMP, AddressingMode::Absolute, 3),
        (0x6C, Operation::JMP, AddressingMode::Indirect, 5),
        (0x08, Operation::PHP, AddressingMode::Implied, 3),
        (0x68, Operation::PLA, AddressingMode::Implied, 4),
        (0xA9, Operation::LDA, AddressingMode::Immediate, 2),
        (0xB1, Operation::LDA, AddressingMode::IndirectY, 5),
        (0x91, Operation::STA, AddressingMode::IndirectY, 6),
        (0x81, Operation::STA, AddressingMode::IndirectX, 6),
        (0x9D, Operation::STA, AddressingMode::AbsoluteX, 5),
        (0x99, Operation::STA, AddressingMode::AbsoluteY, 5),
        (0x96, Operation::STX, AddressingMode::ZeroPageY, 4),
        (0xB6, Operation::LDX, AddressingMode::ZeroPageY, 4),
        (0xBE, Operation::LDX, AddressingMode::AbsoluteY, 4),
        (0xBC, Operation::LDY, AddressingMode::AbsoluteX, 4),
        (0x0A, Operation::ASL, AddressingMode::Accumulator, 2),
        (0x1E, Operation::ASL, AddressingMode::AbsoluteX, 7),
        (0xE6, Operation::INC, AddressingMode::ZeroPage, 5),
        (0xD0, Operation::BNE, AddressingMode::Relative, 2),
        (0x24, Operation::BIT, AddressingMode::ZeroPage, 3),
        (0xEA, Operation::NOP, AddressingMode::Implied, 2),
    ];
    for (opcode, operation, mode, cycles) in rows {
        let instruction = Instruction::from_u8(opcode);
        assert!(instruction.operation == operation);
        assert!(instruction.address_mode == mode);
        assert_eq!(instruction.cycles, cycles);
    }
}

#[test]
fn operand_lengths_and_names() {
    assert_eq!(AddressingMode::Implied.offset(), 0);
    assert_eq!(AddressingMode::Accumulator.offset(), 0);
    assert_eq!(AddressingMode::Immediate.offset(), 1);
    assert_eq!(AddressingMode::ZeroPageY.offset(), 1);
    assert_eq!(AddressingMode::Relative.offset(), 1);
    assert_eq!(AddressingMode::IndirectX.offset(), 1);
    assert_eq!(AddressingMode::IndirectY.offset(), 1);
    assert_eq!(AddressingMode::Absolute.offset(), 2);
    assert_eq!(AddressingMode::AbsoluteY.offset(), 2);
    assert_eq!(AddressingMode::Indirect.offset(), 2);
    assert_eq!(Operation::LDA.mnemonic(), "LDA");
    assert_eq!(Operation::BRK.mnemonic(), "BRK");
    assert_eq!(Operation::SED.mnemonic(), "SED");
    assert!(Operation::STY.stores());
    assert!(!Operation::LDY.stores());
    assert!(Operation::ROR.modifies_memory());
    assert!(!Operation::ORA.modifies_memory());
}

#[test]
fn decimal_flag_does_not_change_arithmetic() {
    let mut cpu = machine(&[0xF8, 0xA9, 0x09, 0x69, 0x01]);
    run(&mut cpu, 3);
    assert_eq!(cpu.r_a, 0x0A);
    assert_eq!(cpu.status.bits, U | I | D);
    let _ = (Z, V, N);
}
