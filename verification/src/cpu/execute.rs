//! Execution of one instruction: operand resolution, the operation itself and
//! the cycles it takes.
use crate::cpu::cpu::pages_differ;
use crate::cpu::cpu::Cpu;
use crate::cpu::cpu::CpuStatusRegister;
use crate::cpu::cpu::CpuView;
use crate::cpu::cpu::BRK_VECTOR;
use crate::cpu::instructions::AddressingMode;
use crate::cpu::instructions::Instruction;
use crate::cpu::instructions::InstructionLoadData;
use crate::cpu::instructions::Operation;
use vstd::prelude::*;

verus! {

/// Address of the high byte of an indirect jump's target: the byte after
/// `pointer` on the same page. From `$xxFF` this is `$xx00`, not the first
/// byte of the next page.
pub open spec fn indirect_high_address(pointer: u16) -> u16 {
    ((pointer / 256) * 256 + (pointer % 256 + 1) % 256) as u16
}

/// The condition under which a branch is taken.
pub open spec fn branch_taken(operation: Operation, status: CpuStatusRegister) -> bool {
    match operation {
        Operation::BCC => !status.has(0x01),
        Operation::BCS => status.has(0x01),
        Operation::BNE => !status.has(0x02),
        Operation::BEQ => status.has(0x02),
        Operation::BVC => !status.has(0x40),
        Operation::BVS => status.has(0x40),
        Operation::BPL => !status.has(0x80),
        Operation::BMI => status.has(0x80),
        _ => false,
    }
}

impl CpuView {
    /// The carry flag as a number.
    pub open spec fn carry(self) -> int {
        if self.status.has(0x01) {
            1
        } else {
            0
        }
    }

    /// The processor with `value` in the accumulator, and `Z` and `N` taken from it.
    pub open spec fn load_a(self, value: u8) -> CpuView {
        CpuView { r_a: value, ..self }.set_zn(value)
    }

    /// The processor with `value` in X, and `Z` and `N` taken from it.
    pub open spec fn load_x(self, value: u8) -> CpuView {
        CpuView { r_x: value, ..self }.set_zn(value)
    }

    /// The processor with `value` in Y, and `Z` and `N` taken from it.
    pub open spec fn load_y(self, value: u8) -> CpuView {
        CpuView { r_y: value, ..self }.set_zn(value)
    }

    /// `ADC`: the accumulator becomes the low byte of `A + M + C`. `C` is the
    /// carry out of bit 7, `V` says that both operands had a sign that the
    /// result does not have, `Z` and `N` come from the result.
    pub open spec fn adc(self, m: u8) -> CpuView {
        let sum = self.r_a + m + self.carry();
        let result = (sum % 256) as u8;
        CpuView {
            r_a: result,
            status: self.status.with(0x01, sum > 0xFF).with(
                0x40,
                (!(self.r_a ^ m) & (self.r_a ^ result) & 0x80) != 0,
            ).with_zn(result),
            ..self
        }
    }

    /// `SBC`: `ADC` of the inverted operand, which in two's complement is
    /// `A - M - (1 - C)`.
    pub open spec fn sbc(self, m: u8) -> CpuView {
        let inverted = m ^ 0xFF;
        let sum = self.r_a + inverted + self.carry();
        let result = (sum % 256) as u8;
        CpuView {
            r_a: result,
            status: self.status.with(0x01, sum > 0xFF).with(
                0x40,
                ((result ^ self.r_a) & (result ^ inverted) & 0x80) != 0,
            ).with_zn(result),
            ..self
        }
    }

    /// `BIT`: `Z` says that `A & M` is zero, `N` and `V` are bits 7 and 6 of `M`.
    pub open spec fn bit(self, m: u8) -> CpuView {
        CpuView {
            status: self.status.with(0x02, self.r_a & m == 0).with(0x80, m & 0x80 != 0).with(
                0x40,
                m & 0x40 != 0,
            ),
            ..self
        }
    }

    /// `CMP`, `CPX`, `CPY`: `Z` and `N` come from `R - M`, `C` says that `R >= M`.
    pub open spec fn compare(self, lhs: u8, rhs: u8) -> CpuView {
        self.set_zn(lhs.wrapping_sub(rhs)).set_flag(0x01, lhs >= rhs)
    }

    /// The processor after a shift or rotate wrote `value` back and took `C`
    /// from the bit that fell out.
    pub open spec fn shifted(
        self,
        address_mode: AddressingMode,
        address: Option<u16>,
        carry: bool,
        value: u8,
    ) -> CpuView {
        self.set_flag(0x01, carry).set_zn(value).write_fetched(address_mode, address, value)
    }

    /// The processor after `INC` or `DEC` wrote `value` back.
    pub open spec fn stepped(
        self,
        address_mode: AddressingMode,
        address: Option<u16>,
        value: u8,
    ) -> CpuView {
        self.write_fetched(address_mode, address, value).set_zn(value)
    }

    /// `BRK`: the address behind the padding byte and the status with `B`
    /// and `U` go to the stack, `I` is set, and the program counter comes from
    /// the vector at `$FFFE`. The program counter is already behind the opcode.
    pub open spec fn brk(self) -> CpuView {
        let pushed = self.push_u16(self.pc.wrapping_add(1)).push(self.status.pushed()).set_flag(
            0x04,
            true,
        );
        CpuView {
            pc: pushed.bus.peek_u16(BRK_VECTOR),
            bus: pushed.bus.after_read_u16(BRK_VECTOR),
            ..pushed
        }
    }

    /// `RTI`: the status comes off the stack, then the program counter.
    pub open spec fn rti(self) -> CpuView {
        let flags = CpuView { status: CpuStatusRegister::pulled(self.top()), ..self.pop() };
        CpuView { pc: flags.top_u16(), ..flags.pop_u16() }
    }

    /// `RTS`: the program counter is the popped word plus one.
    pub open spec fn rts(self) -> CpuView {
        CpuView { pc: self.top_u16().wrapping_add(1), ..self.pop_u16() }
    }

    /// Resolves an addressing mode. The program counter points at the operand.
    ///
    /// The result is the processor after the reads that the mode makes, the
    /// effective address, and whether indexing crossed a page. `Relative`
    /// gives the operand byte itself in place of an address.
    pub open spec fn resolve(self, mode: AddressingMode) -> (CpuView, InstructionLoadData) {
        let operand = self.bus.peek(self.pc);
        let after_byte = self.bus.after_read(self.pc);
        let word = self.bus.peek_u16(self.pc);
        let after_word = self.bus.after_read_u16(self.pc);
        match mode {
            AddressingMode::Implied | AddressingMode::Accumulator => (
                self,
                InstructionLoadData(None, false),
            ),
            AddressingMode::Immediate => (self, InstructionLoadData(Some(self.pc), false)),
            AddressingMode::ZeroPage | AddressingMode::Relative => (
                CpuView { bus: after_byte, ..self },
                InstructionLoadData(Some(operand as u16), false),
            ),
            AddressingMode::ZeroPageX => (
                CpuView { bus: after_byte, ..self },
                InstructionLoadData(Some(operand.wrapping_add(self.r_x) as u16), false),
            ),
            AddressingMode::ZeroPageY => (
                CpuView { bus: after_byte, ..self },
                InstructionLoadData(Some(operand.wrapping_add(self.r_y) as u16), false),
            ),
            AddressingMode::Absolute => (
                CpuView { bus: after_word, ..self },
                InstructionLoadData(Some(word), false),
            ),
            AddressingMode::AbsoluteX => (
                CpuView { bus: after_word, ..self },
                InstructionLoadData(
                    Some(word.wrapping_add(self.r_x as u16)),
                    pages_differ(word, word.wrapping_add(self.r_x as u16)),
                ),
            ),
            AddressingMode::AbsoluteY => (
                CpuView { bus: after_word, ..self },
                InstructionLoadData(
                    Some(word.wrapping_add(self.r_y as u16)),
                    pages_differ(word, word.wrapping_add(self.r_y as u16)),
                ),
            ),
            AddressingMode::Indirect => {
                let lo = after_word.peek(word);
                let after_lo = after_word.after_read(word);
                let hi = after_lo.peek(indirect_high_address(word));
                (
                    CpuView { bus: after_lo.after_read(indirect_high_address(word)), ..self },
                    InstructionLoadData(Some((lo + 256 * hi) as u16), false),
                )
            },
            AddressingMode::IndirectX => {
                let pointer = operand.wrapping_add(self.r_x);
                (
                    CpuView { bus: after_byte.after_read_u16_zp(pointer), ..self },
                    InstructionLoadData(Some(after_byte.peek_u16_zp(pointer)), false),
                )
            },
            AddressingMode::IndirectY => {
                let base = after_byte.peek_u16_zp(operand);
                let absolute = base.wrapping_add(self.r_y as u16);
                (
                    CpuView { bus: after_byte.after_read_u16_zp(operand), ..self },
                    InstructionLoadData(Some(absolute), pages_differ(base, absolute)),
                )
            },
        }
    }

    /// The operation reads the byte at its effective address: every
    /// operation with such an address does, except the three stores.
    pub open spec fn reads_memory(mode: AddressingMode, operation: Operation) -> bool {
        mode.has_address() && mode != AddressingMode::Relative && mode != AddressingMode::Immediate
            && !operation.is_store()
    }

    /// The operand of an operation: the accumulator, the byte behind the
    /// opcode, or the byte at the effective address; zero where there is none.
    pub open spec fn operand(
        self,
        mode: AddressingMode,
        operation: Operation,
        address: Option<u16>,
    ) -> u8 {
        if mode == AddressingMode::Accumulator {
            self.r_a
        } else if mode == AddressingMode::Immediate {
            self.bus.peek(self.pc)
        } else if Self::reads_memory(mode, operation) {
            self.bus.peek(address->0)
        } else {
            0
        }
    }

    /// The processor after the read of the operand.
    pub open spec fn after_fetch(
        self,
        mode: AddressingMode,
        operation: Operation,
        address: Option<u16>,
    ) -> CpuView {
        if mode == AddressingMode::Immediate {
            CpuView { bus: self.bus.after_read(self.pc), ..self }
        } else if Self::reads_memory(mode, operation) {
            CpuView { bus: self.bus.after_read(address->0), ..self }
        } else {
            self
        }
    }

    /// The operations that combine the operand with a register and leave
    /// memory alone.
    pub open spec fn apply_arithmetic(self, operation: Operation, m: u8) -> CpuView {
        match operation {
            Operation::ADC => self.adc(m),
            Operation::SBC => self.sbc(m),
            Operation::AND => self.load_a(self.r_a & m),
            Operation::ORA => self.load_a(self.r_a | m),
            Operation::EOR => self.load_a(self.r_a ^ m),
            Operation::BIT => self.bit(m),
            Operation::CMP => self.compare(self.r_a, m),
            Operation::CPX => self.compare(self.r_x, m),
            Operation::CPY => self.compare(self.r_y, m),
            _ => self,
        }
    }

    /// The shifts and rotates, `INC` and `DEC`. A rotate moves the old carry
    /// in at the end that the shift left empty.
    pub open spec fn apply_read_modify_write(
        self,
        operation: Operation,
        mode: AddressingMode,
        address: Option<u16>,
        m: u8,
    ) -> CpuView {
        match operation {
            Operation::ASL => self.shifted(mode, address, m & 0x80 != 0, m << 1),
            Operation::LSR => self.shifted(mode, address, m & 0x01 != 0, m >> 1),
            Operation::ROL => self.shifted(
                mode,
                address,
                m & 0x80 != 0,
                (m << 1) | (self.status.bits & 0x01),
            ),
            Operation::ROR => self.shifted(
                mode,
                address,
                m & 0x01 != 0,
                (m >> 1) | ((self.status.bits & 0x01) << 7),
            ),
            Operation::INC => self.stepped(mode, address, m.wrapping_add(1)),
            Operation::DEC => self.stepped(mode, address, m.wrapping_sub(1)),
            _ => self,
        }
    }

    /// Loads, transfers, and the increments and decrements of X and Y.
    /// All but `TXS` take `Z` and `N` from the value they move.
    pub open spec fn apply_register(self, operation: Operation, m: u8) -> CpuView {
        match operation {
            Operation::INX => self.load_x(self.r_x.wrapping_add(1)),
            Operation::INY => self.load_y(self.r_y.wrapping_add(1)),
            Operation::DEX => self.load_x(self.r_x.wrapping_sub(1)),
            Operation::DEY => self.load_y(self.r_y.wrapping_sub(1)),
            Operation::LDA => self.load_a(m),
            Operation::LDX => self.load_x(m),
            Operation::LDY => self.load_y(m),
            Operation::TAX => self.load_x(self.r_a),
            Operation::TAY => self.load_y(self.r_a),
            Operation::TSX => self.load_x(self.sp),
            Operation::TXA => self.load_a(self.r_x),
            Operation::TYA => self.load_a(self.r_y),
            Operation::TXS => CpuView { sp: self.r_x, ..self },
            _ => self,
        }
    }

    /// `STA`, `STX`, `STY`: the register goes to the effective address.
    pub open spec fn apply_store(self, operation: Operation, address: u16) -> CpuView {
        match operation {
            Operation::STA => CpuView { bus: self.bus.write(address, self.r_a), ..self },
            Operation::STX => CpuView { bus: self.bus.write(address, self.r_x), ..self },
            Operation::STY => CpuView { bus: self.bus.write(address, self.r_y), ..self },
            _ => self,
        }
    }

    /// `PHA`, `PHP`, `PLA`, `PLP`.
    pub open spec fn apply_stack(self, operation: Operation) -> CpuView {
        match operation {
            Operation::PHA => self.push(self.r_a),
            Operation::PHP => self.push(self.status.pushed()),
            Operation::PLA => self.pop().load_a(self.top()),
            Operation::PLP => CpuView {
                status: CpuStatusRegister::pulled(self.top()),
                ..self.pop()
            },
            _ => self,
        }
    }

    /// The operations that set or clear one flag.
    pub open spec fn apply_flag(self, operation: Operation) -> CpuView {
        match operation {
            Operation::CLC => self.set_flag(0x01, false),
            Operation::SEC => self.set_flag(0x01, true),
            Operation::CLI => self.set_flag(0x04, false),
            Operation::SEI => self.set_flag(0x04, true),
            Operation::CLD => self.set_flag(0x08, false),
            Operation::SED => self.set_flag(0x08, true),
            Operation::CLV => self.set_flag(0x40, false),
            _ => self,
        }
    }

    /// `JMP`, `JSR`, `RTS`, `RTI`, `BRK`. `JSR` pushes the address of its own
    /// last byte.
    pub open spec fn apply_jump(self, operation: Operation, address: Option<u16>) -> CpuView {
        match operation {
            Operation::JMP => CpuView { pc: address->0, ..self },
            Operation::JSR => CpuView { pc: address->0, ..self.push_u16(self.pc.wrapping_sub(1)) },
            Operation::RTS => self.rts(),
            Operation::RTI => self.rti(),
            Operation::BRK => self.brk(),
            _ => self,
        }
    }

    /// A branch: taken if its condition holds, else nothing happens.
    pub open spec fn apply_branch(self, operation: Operation, relative_address: u16) -> CpuView {
        if branch_taken(operation, self.status) {
            self.branch(relative_address)
        } else {
            self
        }
    }

    /// The processor after the operation itself. Operand and address are
    /// resolved, and the program counter is behind the instruction.
    #[verifier::opaque]
    pub open spec fn apply(
        self,
        operation: Operation,
        mode: AddressingMode,
        address: Option<u16>,
        m: u8,
    ) -> CpuView {
        match operation {
            Operation::ADC
            | Operation::SBC
            | Operation::AND
            | Operation::ORA
            | Operation::EOR
            | Operation::BIT
            | Operation::CMP
            | Operation::CPX
            | Operation::CPY => self.apply_arithmetic(operation, m),
            Operation::ASL
            | Operation::LSR
            | Operation::ROL
            | Operation::ROR
            | Operation::INC
            | Operation::DEC => self.apply_read_modify_write(operation, mode, address, m),
            Operation::INX
            | Operation::INY
            | Operation::DEX
            | Operation::DEY
            | Operation::LDA
            | Operation::LDX
            | Operation::LDY
            | Operation::TAX
            | Operation::TAY
            | Operation::TSX
            | Operation::TXA
            | Operation::TYA
            | Operation::TXS => self.apply_register(operation, m),
            Operation::STA | Operation::STX | Operation::STY => self.apply_store(
                operation,
                address->0,
            ),
            Operation::PHA | Operation::PHP | Operation::PLA | Operation::PLP => self.apply_stack(
                operation,
            ),
            Operation::CLC
            | Operation::SEC
            | Operation::CLI
            | Operation::SEI
            | Operation::CLD
            | Operation::SED
            | Operation::CLV => self.apply_flag(operation),
            Operation::JMP
            | Operation::JSR
            | Operation::RTS
            | Operation::RTI
            | Operation::BRK => self.apply_jump(operation, address),
            Operation::BCC
            | Operation::BCS
            | Operation::BNE
            | Operation::BEQ
            | Operation::BVC
            | Operation::BVS
            | Operation::BPL
            | Operation::BMI => self.apply_branch(operation, address->0),
            Operation::NOP | Operation::UnknownOperation => self,
        }
    }

    /// The processor with its program counter behind the opcode it pointed at.
    pub open spec fn behind_opcode(self) -> CpuView {
        CpuView { pc: self.pc.wrapping_add(1), ..self }
    }

    /// The processor right before the operation of `instruction` is applied,
    /// with the effective address and the operand: the operand is resolved and
    /// read, and the program counter is behind the instruction. The program
    /// counter of `self` points at the opcode.
    #[verifier::opaque]
    pub open spec fn prepare(self, instruction: Instruction) -> (CpuView, InstructionLoadData, u8) {
        let mode = instruction.address_mode;
        let operation = instruction.operation;
        let (resolved, load) = self.behind_opcode().resolve(mode);
        let fetched = resolved.after_fetch(mode, operation, load.0);
        (
            CpuView { pc: fetched.pc.wrapping_add(mode.operand_length()), ..fetched },
            load,
            resolved.operand(mode, operation, load.0),
        )
    }

    /// The processor after `instruction`, whose opcode the program counter points at.
    pub open spec fn execute(self, instruction: Instruction) -> CpuView {
        let (ready, load, m) = self.prepare(instruction);
        ready.apply(instruction.operation, instruction.address_mode, load.0, m)
    }

    /// The cycles that `instruction` takes: its base cycles; one more if
    /// indexing crossed a page, unless the operation is a store or a
    /// read-modify-write, which pay for that in their base cycles; and for a
    /// taken branch what the branch costs.
    pub open spec fn execute_cycles(self, instruction: Instruction) -> int {
        let (ready, load, m) = self.prepare(instruction);
        let operation = instruction.operation;
        instruction.cycles + (if load.1 && !operation.is_store()
            && !operation.is_read_modify_write() {
            1int
        } else {
            0int
        }) + (if branch_taken(operation, ready.status) {
            ready.branch_cycles(load.0->0) as int
        } else {
            0int
        })
    }
}

impl Cpu {
    /// Resolves an addressing mode. The program counter points at the operand.
    #[verifier::rlimit(50)]
    pub fn load_instruction_address(&mut self, address_mode: &AddressingMode) -> (load:
        InstructionLoadData)
        requires
            old(self).wf(),
        ensures
            (final(self)@, load) == old(self)@.resolve(*address_mode),
            address_mode.has_address() ==> load.0 is Some,
            final(self).wf(),
    {
        match address_mode {
            AddressingMode::Immediate => InstructionLoadData(Some(self.pc), false),
            AddressingMode::ZeroPage | AddressingMode::Relative => {
                let operand = self.bus.read(self.pc);
                InstructionLoadData(Some(operand as u16), false)
            },
            AddressingMode::ZeroPageX => {
                let address = self.bus.read(self.pc).wrapping_add(self.r_x);
                InstructionLoadData(Some(address as u16), false)
            },
            AddressingMode::ZeroPageY => {
                let address = self.bus.read(self.pc).wrapping_add(self.r_y);
                InstructionLoadData(Some(address as u16), false)
            },
            AddressingMode::Absolute => {
                let address = self.bus.read_u16(self.pc);
                InstructionLoadData(Some(address), false)
            },
            AddressingMode::AbsoluteX => {
                let base_address = self.bus.read_u16(self.pc);
                let absolute_address = base_address.wrapping_add(self.r_x as u16);
                InstructionLoadData(
                    Some(absolute_address),
                    Cpu::page_cross(base_address, absolute_address),
                )
            },
            AddressingMode::AbsoluteY => {
                let base_address = self.bus.read_u16(self.pc);
                let absolute_address = base_address.wrapping_add(self.r_y as u16);
                InstructionLoadData(
                    Some(absolute_address),
                    Cpu::page_cross(base_address, absolute_address),
                )
            },
            AddressingMode::Indirect => {
                let pointer = self.bus.read_u16(self.pc);
                let lo = self.bus.read(pointer);
                let hi = self.bus.read((pointer / 256) * 256 + (pointer % 256 + 1) % 256);
                InstructionLoadData(Some(hi as u16 * 256 + lo as u16), false)
            },
            AddressingMode::IndirectX => {
                let address = self.bus.read(self.pc).wrapping_add(self.r_x);
                let absolute_address = self.bus.read_u16_zp(address);
                InstructionLoadData(Some(absolute_address), false)
            },
            AddressingMode::IndirectY => {
                let address = self.bus.read(self.pc);
                let relative_address = self.bus.read_u16_zp(address);
                let absolute_address = relative_address.wrapping_add(self.r_y as u16);
                InstructionLoadData(
                    Some(absolute_address),
                    Cpu::page_cross(relative_address, absolute_address),
                )
            },
            _ => InstructionLoadData(None, false),
        }
    }

    /// Reads the operand of an instruction.
    pub fn load_instruction_data(
        &mut self,
        address_mode: &AddressingMode,
        instruction: &Instruction,
        address: Option<u16>,
    ) -> (data: u8)
        requires
            old(self).wf(),
            address_mode.has_address() ==> address is Some,
        ensures
            data == old(self)@.operand(*address_mode, instruction.operation, address),
            final(self)@ == old(self)@.after_fetch(*address_mode, instruction.operation, address),
            final(self).wf(),
    {
        match address_mode {
            AddressingMode::Implied | AddressingMode::Relative => 0,
            AddressingMode::Immediate => self.bus.read(self.pc),
            AddressingMode::Accumulator => self.r_a,
            _ => {
                if instruction.operation.stores() {
                    0
                } else {
                    self.bus.read(address.unwrap())
                }
            },
        }
    }

    /// `CMP`, `CPX`, `CPY`.
    fn compare(&mut self, lhs: u8, rhs: u8)
        ensures
            final(self)@ == old(self)@.compare(lhs, rhs),
            old(self).wf() ==> final(self).wf(),
    {
        let value = lhs.wrapping_sub(rhs);
        self.set_zn(value);
        self.status.set(CpuStatusRegister::C, lhs >= rhs);
    }

    /// `ADC`, and `SBC` on the inverted operand.
    fn add_with_carry(&mut self, m: u8, overflow: bool, sum: u16)
        requires
            sum == old(self).r_a + m + old(self)@.carry(),
        ensures
            final(self)@ == (CpuView {
                r_a: (sum % 256) as u8,
                status: old(self).status.with(0x01, sum > 0xFF).with(0x40, overflow).with_zn(
                    (sum % 256) as u8,
                ),
                ..old(self)@
            }),
            old(self).wf() ==> final(self).wf(),
    {
        let result: u8 = (sum % 256) as u8;
        self.status.set(CpuStatusRegister::C, sum > 0xFF);
        self.status.set(CpuStatusRegister::V, overflow);
        self.r_a = result;
        self.set_zn(result);
    }

    /// The sum `A + M + C`.
    fn carry_sum(&self, m: u8) -> (sum: u16)
        ensures
            sum == self.r_a + m + self@.carry(),
    {
        let carry: u16 = if self.status.intersects(CpuStatusRegister::C) {
            1
        } else {
            0
        };
        self.r_a as u16 + m as u16 + carry
    }

    /// Writes back the result of a shift or rotate.
    fn shift(&mut self, address_mode: &AddressingMode, address: Option<u16>, carry: bool, value: u8)
        requires
            old(self).wf(),
            address_mode.has_address() ==> address is Some,
        ensures
            final(self)@ == old(self)@.shifted(*address_mode, address, carry, value),
            final(self).wf(),
    {
        self.status.set(CpuStatusRegister::C, carry);
        self.set_zn(value);
        self.write_fetched(address_mode, address, value);
    }

    /// Takes the branch if `taken`, and says what that costs.
    fn branch_if(&mut self, taken: bool, relative_address: u16) -> (cycles: u8)
        ensures
            final(self)@ == (if taken {
                old(self)@.branch(relative_address)
            } else {
                old(self)@
            }),
            cycles == (if taken {
                old(self)@.branch_cycles(relative_address)
            } else {
                0
            }),
            old(self).wf() ==> final(self).wf(),
    {
        if taken {
            self.branch(relative_address)
        } else {
            0
        }
    }

    /// The operations that combine the operand with a register and leave
    /// memory alone.
    fn execute_arithmetic(&mut self, operation: Operation, m: u8)
        requires
            operation == Operation::ADC || operation == Operation::SBC || operation
                == Operation::AND || operation == Operation::ORA || operation == Operation::EOR
                || operation == Operation::BIT || operation == Operation::CMP || operation
                == Operation::CPX || operation == Operation::CPY,
        ensures
            final(self)@ == old(self)@.apply_arithmetic(operation, m),
            old(self).wf() ==> final(self).wf(),
    {
        match operation {
            Operation::ADC => {
                let sum = self.carry_sum(m);
                let result: u8 = (sum % 256) as u8;
                self.add_with_carry(m, (!(self.r_a ^ m) & (self.r_a ^ result) & 0x80) != 0, sum);
            },
            Operation::SBC => {
                let inverted: u8 = m ^ 0xFF;
                let sum = self.carry_sum(inverted);
                let result: u8 = (sum % 256) as u8;
                self.add_with_carry(
                    inverted,
                    ((result ^ self.r_a) & (result ^ inverted) & 0x80) != 0,
                    sum,
                );
            },
            Operation::AND => {
                self.r_a = self.r_a & m;
                self.set_zn(self.r_a);
            },
            Operation::ORA => {
                self.r_a = self.r_a | m;
                self.set_zn(self.r_a);
            },
            Operation::EOR => {
                self.r_a = self.r_a ^ m;
                self.set_zn(self.r_a);
            },
            Operation::BIT => {
                self.status.set(CpuStatusRegister::Z, self.r_a & m == 0);
                self.status.set(CpuStatusRegister::N, m & 0x80 != 0);
                self.status.set(CpuStatusRegister::V, m & 0x40 != 0);
            },
            Operation::CMP => {
                self.compare(self.r_a, m);
            },
            Operation::CPX => {
                self.compare(self.r_x, m);
            },
            _ => {
                self.compare(self.r_y, m);
            },
        }
    }

    /// The shifts, the rotates, `INC` and `DEC`.
    fn execute_read_modify_write(
        &mut self,
        operation: Operation,
        mode: &AddressingMode,
        address: Option<u16>,
        m: u8,
    )
        requires
            old(self).wf(),
            operation.is_read_modify_write(),
            mode.has_address() ==> address is Some,
        ensures
            final(self)@ == old(self)@.apply_read_modify_write(operation, *mode, address, m),
            final(self).wf(),
    {
        match operation {
            Operation::ASL => {
                self.shift(mode, address, m & 0x80 != 0, m << 1);
            },
            Operation::LSR => {
                self.shift(mode, address, m & 0x01 != 0, m >> 1);
            },
            Operation::ROL => {
                let carry: u8 = self.status.bits & 0x01;
                self.shift(mode, address, m & 0x80 != 0, (m << 1) | carry);
            },
            Operation::ROR => {
                let carry: u8 = self.status.bits & 0x01;
                self.shift(mode, address, m & 0x01 != 0, (m >> 1) | (carry << 7));
            },
            Operation::INC => {
                let value = m.wrapping_add(1);
                self.write_fetched(mode, address, value);
                self.set_zn(value);
            },
            _ => {
                let value = m.wrapping_sub(1);
                self.write_fetched(mode, address, value);
                self.set_zn(value);
            },
        }
    }

    /// Loads, transfers, and the increments and decrements of X and Y.
    fn execute_register(&mut self, operation: Operation, m: u8)
        requires
            operation == Operation::INX || operation == Operation::INY || operation
                == Operation::DEX || operation == Operation::DEY || operation == Operation::LDA
                || operation == Operation::LDX || operation == Operation::LDY || operation
                == Operation::TAX || operation == Operation::TAY || operation == Operation::TSX
                || operation == Operation::TXA || operation == Operation::TYA || operation
                == Operation::TXS,
        ensures
            final(self)@ == old(self)@.apply_register(operation, m),
            old(self).wf() ==> final(self).wf(),
    {
        match operation {
            Operation::INX => {
                self.r_x = self.r_x.wrapping_add(1);
                self.set_zn(self.r_x);
            },
            Operation::INY => {
                self.r_y = self.r_y.wrapping_add(1);
                self.set_zn(self.r_y);
            },
            Operation::DEX => {
                self.r_x = self.r_x.wrapping_sub(1);
                self.set_zn(self.r_x);
            },
            Operation::DEY => {
                self.r_y = self.r_y.wrapping_sub(1);
                self.set_zn(self.r_y);
            },
            Operation::LDA => {
                self.r_a = m;
                self.set_zn(self.r_a);
            },
            Operation::LDX => {
                self.r_x = m;
                self.set_zn(self.r_x);
            },
            Operation::LDY => {
                self.r_y = m;
                self.set_zn(self.r_y);
            },
            Operation::TAX => {
                self.r_x = self.r_a;
                self.set_zn(self.r_x);
            },
            Operation::TAY => {
                self.r_y = self.r_a;
                self.set_zn(self.r_y);
            },
            Operation::TSX => {
                self.r_x = self.sp;
                self.set_zn(self.r_x);
            },
            Operation::TXA => {
                self.r_a = self.r_x;
                self.set_zn(self.r_a);
            },
            Operation::TYA => {
                self.r_a = self.r_y;
                self.set_zn(self.r_a);
            },
            _ => {
                self.sp = self.r_x;
            },
        }
    }

    /// `STA`, `STX`, `STY`.
    fn execute_store(&mut self, operation: Operation, address: u16)
        requires
            old(self).wf(),
            operation.is_store(),
        ensures
            final(self)@ == old(self)@.apply_store(operation, address),
            final(self).wf(),
    {
        match operation {
            Operation::STA => {
                self.bus.write(address, self.r_a);
            },
            Operation::STX => {
                self.bus.write(address, self.r_x);
            },
            _ => {
                self.bus.write(address, self.r_y);
            },
        }
    }

    /// `PHA`, `PHP`, `PLA`, `PLP`.
    fn execute_stack(&mut self, operation: Operation)
        requires
            old(self).wf(),
            operation == Operation::PHA || operation == Operation::PHP || operation
                == Operation::PLA || operation == Operation::PLP,
        ensures
            final(self)@ == old(self)@.apply_stack(operation),
            final(self).wf(),
    {
        match operation {
            Operation::PHA => {
                self.push(self.r_a);
            },
            Operation::PHP => {
                self.push(self.status.bits | CpuStatusRegister::U | CpuStatusRegister::B);
            },
            Operation::PLA => {
                self.r_a = self.pop();
                self.set_zn(self.r_a);
            },
            _ => {
                let byte = self.pop();
                self.status = CpuStatusRegister {
                    bits: (byte & !CpuStatusRegister::B) | CpuStatusRegister::U,
                };
            },
        }
    }

    /// The operations that set or clear one flag.
    fn execute_flag(&mut self, operation: Operation)
        requires
            operation == Operation::CLC || operation == Operation::SEC || operation
                == Operation::CLI || operation == Operation::SEI || operation == Operation::CLD
                || operation == Operation::SED || operation == Operation::CLV,
        ensures
            final(self)@ == old(self)@.apply_flag(operation),
            old(self).wf() ==> final(self).wf(),
    {
        match operation {
            Operation::CLC => {
                self.status.set(CpuStatusRegister::C, false);
            },
            Operation::SEC => {
                self.status.set(CpuStatusRegister::C, true);
            },
            Operation::CLI => {
                self.status.set(CpuStatusRegister::I, false);
            },
            Operation::SEI => {
                self.status.set(CpuStatusRegister::I, true);
            },
            Operation::CLD => {
                self.status.set(CpuStatusRegister::D, false);
            },
            Operation::SED => {
                self.status.set(CpuStatusRegister::D, true);
            },
            _ => {
                self.status.set(CpuStatusRegister::V, false);
            },
        }
    }

    /// `JMP`, `JSR`, `RTS`, `RTI`, `BRK`.
    fn execute_jump(&mut self, operation: Operation, address: Option<u16>)
        requires
            old(self).wf(),
            operation == Operation::JMP || operation == Operation::JSR || operation
                == Operation::RTS || operation == Operation::RTI || operation == Operation::BRK,
            operation.needs_address() ==> address is Some,
        ensures
            final(self)@ == old(self)@.apply_jump(operation, address),
            final(self).wf(),
    {
        match operation {
            Operation::JMP => {
                self.pc = address.unwrap();
            },
            Operation::JSR => {
                self.push_u16(self.pc.wrapping_sub(1));
                self.pc = address.unwrap();
            },
            Operation::RTS => {
                self.pc = self.pop_u16().wrapping_add(1);
            },
            Operation::RTI => {
                let byte = self.pop();
                self.status = CpuStatusRegister {
                    bits: (byte & !CpuStatusRegister::B) | CpuStatusRegister::U,
                };
                self.pc = self.pop_u16();
            },
            _ => {
                self.push_u16(self.pc.wrapping_add(1));
                self.push(self.status.bits | CpuStatusRegister::U | CpuStatusRegister::B);
                self.status.set(CpuStatusRegister::I, true);
                self.pc = self.bus.read_u16(BRK_VECTOR);
            },
        }
    }

    /// The eight branches; returns the cycles that the branch adds.
    fn execute_branch(&mut self, operation: Operation, relative_address: u16) -> (cycles: u8)
        requires
            operation.is_branch(),
        ensures
            final(self)@ == old(self)@.apply_branch(operation, relative_address),
            cycles == (if branch_taken(operation, old(self).status) {
                old(self)@.branch_cycles(relative_address)
            } else {
                0
            }),
            old(self).wf() ==> final(self).wf(),
    {
        let taken = match operation {
            Operation::BCC => !self.status.intersects(CpuStatusRegister::C),
            Operation::BCS => self.status.intersects(CpuStatusRegister::C),
            Operation::BNE => !self.status.intersects(CpuStatusRegister::Z),
            Operation::BEQ => self.status.intersects(CpuStatusRegister::Z),
            Operation::BVC => !self.status.intersects(CpuStatusRegister::V),
            Operation::BVS => self.status.intersects(CpuStatusRegister::V),
            Operation::BPL => !self.status.intersects(CpuStatusRegister::N),
            _ => self.status.intersects(CpuStatusRegister::N),
        };
        self.branch_if(taken, relative_address)
    }

    /// Resolves and reads the operand of `instruction`, whose opcode the
    /// program counter points at, and moves the program counter behind it.
    fn prepare_instruction(&mut self, instruction: &Instruction) -> (operand: (
        InstructionLoadData,
        u8,
    ))
        requires
            old(self).wf(),
        ensures
            (final(self)@, operand.0, operand.1) == old(self)@.prepare(*instruction),
            final(self).cycle == old(self).cycle,
            instruction.address_mode.has_address() ==> operand.0.0 is Some,
            final(self).wf(),
    {
        proof {
            reveal(CpuView::prepare);
        }
        self.pc = self.pc.wrapping_add(1);
        let load = self.load_instruction_address(&instruction.address_mode);
        let m = self.load_instruction_data(&instruction.address_mode, instruction, load.0);
        self.pc = self.pc.wrapping_add(instruction.address_mode.offset());
        (load, m)
    }

    /// Applies an operation to its resolved operand and returns the cycles
    /// that a taken branch adds.
    #[verifier::rlimit(50)]
    fn apply_operation(
        &mut self,
        operation: Operation,
        mode: &AddressingMode,
        address: Option<u16>,
        m: u8,
    ) -> (cycles: u8)
        requires
            old(self).wf(),
            mode.has_address() ==> address is Some,
            operation.needs_address() ==> address is Some,
        ensures
            final(self)@ == old(self)@.apply(operation, *mode, address, m),
            final(self).cycle == old(self).cycle,
            cycles == (if branch_taken(operation, old(self).status) {
                old(self)@.branch_cycles(address->0)
            } else {
                0
            }),
            final(self).wf(),
    {
        proof {
            reveal(CpuView::apply);
        }
        match operation {
            Operation::ADC
            | Operation::SBC
            | Operation::AND
            | Operation::ORA
            | Operation::EOR
            | Operation::BIT
            | Operation::CMP
            | Operation::CPX
            | Operation::CPY => {
                self.execute_arithmetic(operation, m);
                0
            },
            Operation::ASL
            | Operation::LSR
            | Operation::ROL
            | Operation::ROR
            | Operation::INC
            | Operation::DEC => {
                self.execute_read_modify_write(operation, mode, address, m);
                0
            },
            Operation::INX
            | Operation::INY
            | Operation::DEX
            | Operation::DEY
            | Operation::LDA
            | Operation::LDX
            | Operation::LDY
            | Operation::TAX
            | Operation::TAY
            | Operation::TSX
            | Operation::TXA
            | Operation::TYA
            | Operation::TXS => {
                self.execute_register(operation, m);
                0
            },
            Operation::STA | Operation::STX | Operation::STY => {
                self.execute_store(operation, address.unwrap());
                0
            },
            Operation::PHA | Operation::PHP | Operation::PLA | Operation::PLP => {
                self.execute_stack(operation);
                0
            },
            Operation::CLC
            | Operation::SEC
            | Operation::CLI
            | Operation::SEI
            | Operation::CLD
            | Operation::SED
            | Operation::CLV => {
                self.execute_flag(operation);
                0
            },
            Operation::JMP
            | Operation::JSR
            | Operation::RTS
            | Operation::RTI
            | Operation::BRK => {
                self.execute_jump(operation, address);
                0
            },
            Operation::BCC
            | Operation::BCS
            | Operation::BNE
            | Operation::BEQ
            | Operation::BVC
            | Operation::BVS
            | Operation::BPL
            | Operation::BMI => self.execute_branch(operation, address.unwrap()),
            Operation::NOP | Operation::UnknownOperation => 0,
        }
    }

    /// Executes `instruction`, whose opcode the program counter points at,
    /// and returns the cycles it took.
    pub fn execute_instruction(&mut self, instruction: &Instruction) -> (cycles: u8)
        requires
            old(self).wf(),
            instruction.executable(),
        ensures
            final(self)@ == old(self)@.execute(*instruction),
            final(self).cycle == old(self).cycle,
            cycles == old(self)@.execute_cycles(*instruction),
            final(self).wf(),
    {
        let (load, m) = self.prepare_instruction(instruction);
        let operation = instruction.operation;
        let mut cycles: u8 = instruction.cycles;
        if load.1 && !operation.stores() && !operation.modifies_memory() {
            cycles += 1;
        }
        let extra = self.apply_operation(operation, &instruction.address_mode, load.0, m);
        cycles + extra
    }
}

} // verus!
