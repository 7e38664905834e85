//! What holds of the machine whatever state it is in: mirroring on the bus,
//! the latches and the palette of the picture processing unit, and the
//! round trips over the stack.
use crate::cpu::bus::BusView;
use crate::cpu::cpu::CpuStatusRegister;
use crate::cpu::cpu::CpuView;
use crate::cpu::instructions::decode;
use crate::cpu::instructions::AddressingMode;
use crate::cpu::instructions::Operation;
use crate::ppu::palette_index;
use crate::ppu::PpuView;
use vstd::prelude::*;

verus! {

/// Masking an address with `0x07FF` or with `7` takes its remainder by
/// 2048 or by 8.
pub proof fn lemma_mask_is_remainder(a: u16)
    by (bit_vector)
    ensures
        a & 0x07FF == a % 0x800,
        a & 7 == a % 8,
{
}

/// Pushing sets `B` and `U`; pulling clears `B`, sets `U` and keeps the
/// other six flags of the byte pulled.
pub proof fn lemma_status_on_the_stack(bits: u8)
    by (bit_vector)
    ensures
        (bits | 0x20 | 0x10) & 0x20 == 0x20,
        (bits | 0x20 | 0x10) & 0x10 == 0x10,
        ((bits & !0x10u8) | 0x20) & 0x10 == 0,
        ((bits & !0x10u8) | 0x20) & 0x20 == 0x20,
        ((bits & !0x10u8) | 0x20) & 0xCF == bits & 0xCF,
        (bits | 0x20 | 0x10) & 0xCF == bits & 0xCF,
{
}

/// Work RAM is mirrored: two addresses below `$2000` that agree in their
/// low eleven bits read the same byte, and a read or a write at one leaves
/// the bus as a read or a write at the other does.
pub proof fn ram_is_mirrored(bus: BusView, a: u16, b: u16, value: u8)
    requires
        a < 0x2000,
        b < 0x2000,
        a & 0x07FF == b & 0x07FF,
    ensures
        bus.peek(a) == bus.peek(b),
        bus.after_read(a) == bus.after_read(b),
        bus.write(a, value) == bus.write(b, value),
{
    reveal(BusView::peek);
    reveal(BusView::after_read);
    reveal(BusView::write);
    lemma_mask_is_remainder(a);
    lemma_mask_is_remainder(b);
}

/// The registers of the picture processing unit are mirrored: two
/// addresses from `$2000` to `$3FFF` that agree in their low three bits are
/// dispatched alike, for reads and for writes.
pub proof fn ppu_registers_are_mirrored(bus: BusView, a: u16, b: u16, value: u8)
    requires
        0x2000 <= a < 0x4000,
        0x2000 <= b < 0x4000,
        a & 7 == b & 7,
    ensures
        bus.peek(a) == bus.peek(b),
        bus.after_read(a) == bus.after_read(b),
        bus.write(a, value) == bus.write(b, value),
{
    reveal(BusView::peek);
    reveal(BusView::after_read);
    reveal(BusView::write);
    lemma_mask_is_remainder(a);
    lemma_mask_is_remainder(b);
}

/// A read of the status register, at `$2002` or any of its mirrors, leaves
/// both write latches pointing at their first byte.
pub proof fn status_read_resets_latches(bus: BusView, addr: u16)
    requires
        0x2000 <= addr < 0x4000,
        addr & 7 == 2,
    ensures
        bus.after_read(addr).ppu.addr.high_byte,
        !bus.after_read(addr).ppu.scroll.latch,
{
    reveal(BusView::after_read);
    lemma_mask_is_remainder(addr);
}

/// The VRAM address has fourteen bits after every write to the address
/// register, and after every access of the data port.
pub proof fn vram_address_stays_in_range(ppu: PpuView, value: u8)
    ensures
        ppu.write_addr(value).addr.address() < 0x4000,
        ppu.write_data(value).addr.address() < 0x4000,
        ppu.read_data().addr.address() < 0x4000,
{
}

/// A read at any address leaves a well-formed bus well formed.
pub proof fn read_preserves_wf(bus: BusView, addr: u16)
    requires
        bus.wf(),
    ensures
        bus.after_read(addr).wf(),
{
    reveal(BusView::after_read);
}

/// Reads in a row leave a well-formed bus well formed.
pub proof fn reads_preserve_wf(bus: BusView, start: u16, count: nat)
    requires
        bus.wf(),
    ensures
        bus.after_reads(start, count).wf(),
    decreases count,
{
    if count > 0 {
        reads_preserve_wf(bus, start, (count - 1) as nat);
        read_preserves_wf(
            bus.after_reads(start, (count - 1) as nat),
            ((start + count - 1) % 0x10000) as u16,
        );
    }
}

/// A write at any address leaves a well-formed bus well formed; the VRAM
/// address of such a bus has fourteen bits.
#[verifier::rlimit(50)]
pub proof fn write_preserves_wf(bus: BusView, addr: u16, value: u8)
    requires
        bus.wf(),
    ensures
        bus.write(addr, value).wf(),
        bus.write(addr, value).ppu.addr.address() < 0x4000,
{
    reveal(BusView::write);
    reads_preserve_wf(bus, (value * 256) as u16, 256);
}

/// The palette entries `$3F10`, `$3F14`, `$3F18` and `$3F1C` are those at
/// `$3F00`, `$3F04`, `$3F08` and `$3F0C`: with the VRAM address at one of
/// the former the data port reads what it reads at the latter, and a write
/// changes the unit alike, but for the address register itself.
pub proof fn palette_entries_are_aliased(ppu: PpuView, k: int, value: u8)
    requires
        k == 0 || k == 4 || k == 8 || k == 12,
    ensures
        palette_index((0x3F10 + k) as u16) == palette_index((0x3F00 + k) as u16),
        ppu.at_address(0x3F10 + k).data_port_value() == ppu.at_address(
            0x3F00 + k,
        ).data_port_value(),
        ppu.at_address(0x3F10 + k).write_data(value).palette_table == ppu.at_address(
            0x3F00 + k,
        ).write_data(value).palette_table,
{
}

/// After a read of the status register, two writes to the address register,
/// high byte first, point the data port at a palette entry, which a read of
/// the data port then returns at once.
#[verifier::rlimit(50)]
pub proof fn palette_read_is_not_buffered(bus: BusView, hi: u8, lo: u8)
    requires
        (hi % 64) * 256 + lo >= 0x3F00,
    ensures
        bus.after_read(0x2002).write(0x2006, hi).write(0x2006, lo).ppu.addr.address() == (hi % 64)
            * 256 + lo,
        bus.after_read(0x2002).write(0x2006, hi).write(0x2006, lo).peek(0x2007)
            == bus.ppu.palette_table[palette_index(((hi % 64) * 256 + lo) as u16)],
{
    let b0 = bus.after_read(0x2002);
    assert(b0.ppu == bus.ppu.read_status()) by {
        reveal(BusView::after_read);
    }
    let b1 = b0.write(0x2006, hi);
    assert(b1.ppu == b0.ppu.write_addr(hi)) by {
        reveal(BusView::write);
    }
    let b2 = b1.write(0x2006, lo);
    assert(b2.ppu == b1.ppu.write_addr(lo)) by {
        reveal(BusView::write);
    }
    assert(b0.ppu.addr.high_byte);
    assert(b1.ppu.addr.value.0 == hi % 64 && !b1.ppu.addr.high_byte);
    assert(b2.ppu.addr.address() == (hi % 64) * 256 + lo);
    assert(b2.ppu.palette_table == bus.ppu.palette_table);
    assert(b2.peek(0x2007) == b2.ppu.data_port_value()) by {
        reveal(BusView::peek);
    }
}

/// A byte written to a stack slot is read back from it, other stack slots
/// keep what they hold, and the bus stays well formed.
pub proof fn stack_slot_holds_what_was_pushed(bus: BusView, sp: u8, other: u8, value: u8)
    requires
        bus.wf(),
    ensures
        bus.write(CpuView::stack_address(sp), value).wf(),
        bus.write(CpuView::stack_address(sp), value).peek(CpuView::stack_address(sp)) == value,
        other != sp ==> bus.write(CpuView::stack_address(sp), value).peek(
            CpuView::stack_address(other),
        ) == bus.peek(CpuView::stack_address(other)),
{
    reveal(BusView::peek);
    reveal(BusView::write);
}

/// The status byte that `PHP` pushes, and the one that `BRK` pushes, has
/// `U` set, and `B` too.
#[verifier::rlimit(50)]
pub proof fn pushed_status_has_u_set(cpu: CpuView)
    requires
        cpu.wf(),
    ensures
        cpu.apply_stack(Operation::PHP).top() & 0x20 == 0x20,
        cpu.apply_stack(Operation::PHP).top() & 0x10 == 0x10,
        cpu.brk().top() & 0x20 == 0x20,
        cpu.brk().top() & 0x10 == 0x10,
{
    lemma_status_on_the_stack(cpu.status.bits);
    stack_slot_holds_what_was_pushed(cpu.bus, cpu.sp, cpu.sp, cpu.status.pushed());
    assert(cpu.apply_stack(Operation::PHP).top() == cpu.status.pushed());
    let return_address = cpu.pc.wrapping_add(1);
    let first = cpu.push((return_address / 256) as u8);
    stack_slot_holds_what_was_pushed(cpu.bus, cpu.sp, cpu.sp, (return_address / 256) as u8);
    let second = first.push((return_address % 256) as u8);
    stack_slot_holds_what_was_pushed(first.bus, first.sp, first.sp, (return_address % 256) as u8);
    let third = second.push(cpu.status.pushed());
    stack_slot_holds_what_was_pushed(second.bus, second.sp, second.sp, cpu.status.pushed());
    assert(third.top() == cpu.status.pushed());
    assert(cpu.brk().bus == third.bus && cpu.brk().sp == third.sp) by {
        reveal(BusView::after_read);
    }
}

/// `PHA` followed by `PLA` restores the accumulator, whatever happened to
/// it in between, and the stack pointer, and takes `Z` and `N` from the
/// accumulator.
pub proof fn pha_pla_restores_accumulator(cpu: CpuView, scratch: u8)
    requires
        cpu.wf(),
    ensures
        ({
            let pushed = cpu.apply_stack(Operation::PHA);
            let pulled = CpuView { r_a: scratch, ..pushed }.apply_stack(Operation::PLA);
            &&& pulled.r_a == cpu.r_a
            &&& pulled.sp == cpu.sp
            &&& pulled.status == cpu.status.with_zn(cpu.r_a)
        }),
{
    stack_slot_holds_what_was_pushed(cpu.bus, cpu.sp, cpu.sp, cpu.r_a);
}

/// `PHP` followed by `PLP` restores the flags `C`, `Z`, `I`, `D`, `V` and
/// `N`, whatever happened to them in between, and leaves `B` clear and `U`
/// set.
pub proof fn php_plp_restores_flags(cpu: CpuView, scratch: u8)
    requires
        cpu.wf(),
    ensures
        ({
            let pushed = cpu.apply_stack(Operation::PHP);
            let pulled = CpuView {
                status: CpuStatusRegister { bits: scratch },
                ..pushed
            }.apply_stack(Operation::PLP);
            &&& pulled.status.bits & 0xCF == cpu.status.bits & 0xCF
            &&& pulled.status.bits & 0x10 == 0
            &&& pulled.status.bits & 0x20 == 0x20
            &&& pulled.sp == cpu.sp
        }),
{
    stack_slot_holds_what_was_pushed(cpu.bus, cpu.sp, cpu.sp, cpu.status.pushed());
    lemma_status_on_the_stack(cpu.status.bits);
    lemma_status_on_the_stack(cpu.status.pushed());
    let pushed = cpu.apply_stack(Operation::PHP);
    let clobbered = CpuView { status: CpuStatusRegister { bits: scratch }, ..pushed };
    assert(clobbered.top() == cpu.status.pushed());
}

/// `JSR` followed by `RTS` returns to the instruction behind the `JSR`,
/// with the stack pointer as it was. The program counter of `cpu` is
/// behind the `JSR`, as it is when the operation is applied.
#[verifier::rlimit(50)]
pub proof fn jsr_rts_returns(cpu: CpuView, target: u16)
    requires
        cpu.wf(),
    ensures
        ({
            let called = cpu.apply_jump(Operation::JSR, Some(target));
            let returned = called.apply_jump(Operation::RTS, None);
            &&& called.pc == target
            &&& returned.pc == cpu.pc
            &&& returned.sp == cpu.sp
        }),
{
    let address = cpu.pc.wrapping_sub(1);
    let hi = (address / 256) as u8;
    let lo = (address % 256) as u8;
    let first = cpu.push(hi);
    let second = first.push(lo);
    stack_slot_holds_what_was_pushed(cpu.bus, cpu.sp, cpu.sp, hi);
    stack_slot_holds_what_was_pushed(first.bus, first.sp, cpu.sp, lo);
    let called = cpu.apply_jump(Operation::JSR, Some(target));
    assert(called.bus == second.bus && called.sp == second.sp);
    assert(called.top() == lo);
    assert(called.pop().top() == hi);
    assert(called.top_u16() == address);
}

/// An instruction of one byte reads nothing but its opcode: executing it
/// moves the program counter behind the opcode and applies the operation,
/// and takes the base cycles of the instruction.
pub proof fn one_byte_instruction_applies_its_operation(cpu: CpuView, opcode: u8)
    requires
        decode(opcode).address_mode == AddressingMode::Implied,
    ensures
        cpu.execute(decode(opcode)) == cpu.behind_opcode().apply(
            decode(opcode).operation,
            AddressingMode::Implied,
            None,
            0,
        ),
        cpu.execute_cycles(decode(opcode)) == decode(opcode).cycles,
{
    reveal(CpuView::prepare);
    let instruction = decode(opcode);
    assert(!instruction.operation.is_branch());
}

/// The instructions `PHA` (`$48`) and `PLA` (`$68`), executed one after the
/// other, restore the accumulator, whatever happened to it in between,
/// leave the stack pointer as it was and the program counter two bytes on.
#[verifier::rlimit(50)]
pub proof fn pha_pla_instructions_round_trip(cpu: CpuView, scratch: u8)
    requires
        cpu.wf(),
    ensures
        ({
            let pushed = cpu.execute(decode(0x48));
            let pulled = CpuView { r_a: scratch, ..pushed }.execute(decode(0x68));
            &&& pulled.r_a == cpu.r_a
            &&& pulled.sp == cpu.sp
            &&& pulled.pc == cpu.pc.wrapping_add(1).wrapping_add(1)
            &&& pulled.status == cpu.status.with_zn(cpu.r_a)
        }),
{
    let start = cpu.behind_opcode();
    one_byte_instruction_applies_its_operation(cpu, 0x48);
    stack_operations_apply(start, Operation::PHA, AddressingMode::Implied, None, 0);
    let pushed = cpu.execute(decode(0x48));
    assert(pushed == start.apply_stack(Operation::PHA));
    let clobbered = CpuView { r_a: scratch, ..pushed };
    one_byte_instruction_applies_its_operation(clobbered, 0x68);
    stack_operations_apply(
        clobbered.behind_opcode(),
        Operation::PLA,
        AddressingMode::Implied,
        None,
        0,
    );
    stack_slot_holds_what_was_pushed(start.bus, start.sp, start.sp, start.r_a);
}

/// The four stack operations are applied as [`CpuView::apply_stack`] says,
/// whatever their operand.
#[verifier::rlimit(50)]
pub proof fn stack_operations_apply(
    cpu: CpuView,
    operation: Operation,
    mode: AddressingMode,
    address: Option<u16>,
    m: u8,
)
    requires
        operation == Operation::PHA || operation == Operation::PHP || operation == Operation::PLA
            || operation == Operation::PLP,
    ensures
        cpu.apply(operation, mode, address, m) == cpu.apply_stack(operation),
{
    reveal(CpuView::apply);
}

/// Reads in work RAM change nothing, and return what the RAM holds.
pub proof fn reads_of_ram(bus: BusView, start: u16, count: nat)
    requires
        bus.wf(),
        start + count <= 0x2000,
    ensures
        bus.after_reads(start, count) == bus,
        bus.read_bytes(start, count).len() == count,
        forall|k: int|
            0 <= k < count ==> #[trigger] bus.read_bytes(start, count)[k] == bus.ram[(start + k)
                % 0x800],
    decreases count,
{
    reveal(BusView::peek);
    reveal(BusView::after_read);
    if count > 0 {
        reads_of_ram(bus, start, (count - 1) as nat);
    }
}

/// An OAM DMA transfer from a page of work RAM copies the 256 bytes of the
/// page into OAM: byte `i` lands at `oam_addr + i`, wrapping at the end of
/// OAM. Nothing else changes but the stall that the processor owes.
#[verifier::rlimit(50)]
pub proof fn oam_dma_copies_ram_page(bus: BusView, page: u8)
    requires
        bus.wf(),
        page < 0x20,
    ensures
        bus.write(0x4014, page).dma_stall,
        bus.write(0x4014, page).ram == bus.ram,
        bus.write(0x4014, page).ppu.oam_addr == bus.ppu.oam_addr,
        forall|i: int|
            0 <= i < 256 ==> #[trigger] bus.write(0x4014, page).ppu.oam_data[(bus.ppu.oam_addr + i)
                % 256] == bus.ram[(page * 256 + i) % 0x800],
{
    let start = (page * 256) as u16;
    reads_of_ram(bus, start, 256);
    let after = bus.write(0x4014, page);
    let bytes = bus.read_bytes(start, 256);
    assert(after == bus.oam_dma(page)) by {
        reveal(BusView::write);
    }
    assert(after.ppu.oam_data == Seq::new(256, |j: int| bytes[(j - bus.ppu.oam_addr as int) % 256]));
    assert forall|i: int| 0 <= i < 256 implies #[trigger] after.ppu.oam_data[(bus.ppu.oam_addr
        + i) % 256] == bus.ram[(page * 256 + i) % 0x800] by {
        let j = (bus.ppu.oam_addr + i) % 256;
        assert((j - bus.ppu.oam_addr as int) % 256 == i);
        assert(bytes[i] == bus.ram[(page * 256 + i) % 0x800]);
    }
}

/// Inverting a byte subtracts it from 255.
pub proof fn lemma_inverted_byte(m: u8)
    by (bit_vector)
    ensures
        m ^ 0xFF == 255 - m,
{
}

/// A single bank of program ROM appears twice: addresses from `$8000` up
/// that agree modulo 16 KiB read the same byte.
#[verifier::rlimit(50)]
pub proof fn single_program_bank_is_mirrored(bus: BusView, a: u16, b: u16)
    requires
        bus.cartridge.prg_rom.len() == 0x4000,
        a >= 0x8000,
        b >= 0x8000,
        a % 0x4000 == b % 0x4000,
    ensures
        bus.peek(a) == bus.peek(b),
{
    assert((a - 0x8000) % 0x4000 == a % 0x4000);
    assert((b - 0x8000) % 0x4000 == b % 0x4000);
    assert(bus.cartridge.prg_index(a) == bus.cartridge.prg_index(b));
    assert(bus.peek(a) == bus.cartridge.prg_rom[bus.cartridge.prg_index(a)]) by {
        reveal(BusView::peek);
    }
    assert(bus.peek(b) == bus.cartridge.prg_rom[bus.cartridge.prg_index(b)]) by {
        reveal(BusView::peek);
    }
}

/// Program ROM cannot be written: a write from `$8000` up changes nothing.
pub proof fn program_rom_ignores_writes(bus: BusView, addr: u16, value: u8)
    requires
        addr >= 0x8000,
    ensures
        bus.write(addr, value) == bus,
{
    reveal(BusView::write);
}

/// Reads of work RAM and of program ROM change nothing.
pub proof fn reads_of_plain_memory_change_nothing(bus: BusView, addr: u16)
    requires
        addr < 0x2000 || addr >= 0x8000,
    ensures
        bus.after_read(addr) == bus,
{
    reveal(BusView::after_read);
}

/// A taken branch lands at the address behind the branch plus its operand
/// byte read as a signed number, modulo 64 KiB; and it costs one cycle,
/// or two if that address lies on another page.
pub proof fn branch_adds_the_signed_operand(cpu: CpuView, operand: u8)
    ensures
        cpu.branch_target(operand as u16) == (cpu.pc + (if operand >= 128 {
            operand - 256
        } else {
            operand as int
        })) % 0x10000,
        cpu.branch_cycles(operand as u16) == (if cpu.pc / 256 == cpu.branch_target(operand as u16)
            / 256 {
            1int
        } else {
            2int
        }),
{
}

/// `SBC` subtracts: the accumulator becomes `A - M - (1 - C)` modulo 256,
/// and the carry says that no borrow was needed.
pub proof fn sbc_subtracts_with_borrow(cpu: CpuView, m: u8)
    ensures
        cpu.sbc(m).r_a == (cpu.r_a - m - (1 - cpu.carry())) % 256,
        cpu.sbc(m).status.has(0x01) == (cpu.r_a - m - (1 - cpu.carry()) >= 0),
{
    lemma_inverted_byte(m);
    let sum = cpu.r_a + (m ^ 0xFF) + cpu.carry();
    let result = (sum % 256) as u8;
    let flags = cpu.status.with(0x01, sum > 0xFF).with(
        0x40,
        ((result ^ cpu.r_a) & (result ^ (m ^ 0xFF)) & 0x80) != 0,
    ).with_zn(result);
    lemma_carry_survives(cpu.status.bits, sum > 0xFF, flags.bits);
}

/// `ADC` adds: the accumulator becomes `A + M + C` modulo 256, and the
/// carry says that the sum did not fit.
pub proof fn adc_adds_with_carry(cpu: CpuView, m: u8)
    ensures
        cpu.adc(m).r_a == (cpu.r_a + m + cpu.carry()) % 256,
        cpu.adc(m).status.has(0x01) == (cpu.r_a + m + cpu.carry() > 255),
{
    let sum = cpu.r_a + m + cpu.carry();
    let result = (sum % 256) as u8;
    let flags = cpu.status.with(0x01, sum > 0xFF).with(
        0x40,
        (!(cpu.r_a ^ m) & (cpu.r_a ^ result) & 0x80) != 0,
    ).with_zn(result);
    lemma_carry_survives(cpu.status.bits, sum > 0xFF, flags.bits);
}

/// The sign test of `ADC`: the overflow expression says that both operands
/// have the same sign and the result has the other one.
proof fn lemma_sign_test(a: u8, m: u8, r: u8)
    by (bit_vector)
    ensures
        ((!(a ^ m) & (a ^ r) & 0x80) != 0) == ((a >= 128) == (m >= 128) && (a >= 128) != (r
            >= 128)),
{
}

/// Setting or clearing `Z` and `N` leaves `V` as it was set before.
proof fn lemma_overflow_survives(bits: u8, v: bool, z: bool, n: bool)
    by (bit_vector)
    ensures
        ({
            let s1 = if v {
                bits | 0x40
            } else {
                bits & !0x40u8
            };
            let s2 = if z {
                s1 | 0x02
            } else {
                s1 & !0x02u8
            };
            let s3 = if n {
                s2 | 0x80
            } else {
                s2 & !0x80u8
            };
            (s3 & 0x40 != 0) == v
        }),
{
}

/// `ADC` sets `V` exactly when the sum of the operands, read as signed
/// numbers, and the carry does not fit into a signed byte.
pub proof fn adc_overflow_is_signed_overflow(cpu: CpuView, m: u8)
    ensures
        ({
            let a = if cpu.r_a >= 128 {
                cpu.r_a - 256
            } else {
                cpu.r_a as int
            };
            let b = if m >= 128 {
                m - 256
            } else {
                m as int
            };
            cpu.adc(m).status.has(0x40) == (a + b + cpu.carry() < -128 || a + b + cpu.carry() > 127)
        }),
{
    let sum = cpu.r_a + m + cpu.carry();
    let result = (sum % 256) as u8;
    let overflow = (!(cpu.r_a ^ m) & (cpu.r_a ^ result) & 0x80) != 0;
    lemma_sign_test(cpu.r_a, m, result);
    lemma_overflow_survives(
        cpu.status.with(0x01, sum > 0xFF).bits,
        overflow,
        result == 0,
        result & 0x80 == 0x80,
    );
}

/// Setting or clearing `V`, `Z` and `N` leaves `C` as it was set before.
proof fn lemma_carry_survives(bits: u8, carry: bool, after: u8)
    requires
        exists|v: bool, z: bool, n: bool|
            after == (CpuStatusRegister { bits }).with(0x01, carry).with(0x40, v).with(
                0x02,
                z,
            ).with(0x80, n).bits,
    ensures
        (after & 0x01 != 0) == carry,
{
    let (v, z, n) = choose|v: bool, z: bool, n: bool|
        after == (CpuStatusRegister { bits }).with(0x01, carry).with(0x40, v).with(0x02, z).with(
            0x80,
            n,
        ).bits;
    lemma_flag_updates(bits, after, carry, v, z, n);
}

/// The bit-level content of [`lemma_carry_survives`].
proof fn lemma_flag_updates(bits: u8, after: u8, c: bool, v: bool, z: bool, n: bool)
    by (bit_vector)
    requires
        after == {
            let s1 = if c {
                bits | 0x01
            } else {
                bits & !0x01u8
            };
            let s2 = if v {
                s1 | 0x40
            } else {
                s1 & !0x40u8
            };
            let s3 = if z {
                s2 | 0x02
            } else {
                s2 & !0x02u8
            };
            if n {
                s3 | 0x80
            } else {
                s3 & !0x80u8
            }
        },
    ensures
        (after & 0x01 != 0) == c,
{
}

} // verus!
