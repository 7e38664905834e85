//! The decode table of the 6502: every opcode byte gives an operation, an
//! addressing mode and a base cycle count.
use vstd::prelude::*;

verus! {

/// The 56 official operations, and a placeholder that the decoder never yields.
#[derive(Debug, Eq, PartialEq, Structural, Clone, Copy)]
pub enum Operation {
    BRK,
    ORA,
    ASL,
    PHP,
    BPL,
    CLC,
    JSR,
    AND,
    BIT,
    ROL,
    PLP,
    BMI,
    SEC,
    RTI,
    EOR,
    LSR,
    PHA,
    JMP,
    BVC,
    CLI,
    RTS,
    ADC,
    ROR,
    PLA,
    STA,
    STY,
    STX,
    DEY,
    TXA,
    BCC,
    INC,
    SBC,
    SEI,
    BVS,
    TYA,
    TXS,
    LDY,
    LDA,
    LDX,
    TAY,
    TAX,
    BCS,
    CLV,
    TSX,
    CPY,
    CMP,
    DEX,
    DEC,
    INY,
    BNE,
    CLD,
    CPX,
    INX,
    NOP,
    BEQ,
    SED,
    UnknownOperation,
}

/// How an instruction finds its operand.
#[derive(Debug, Eq, PartialEq, Structural, Clone, Copy)]
pub enum AddressingMode {
    Implied,
    Immediate,
    ZeroPage,
    ZeroPageX,
    ZeroPageY,
    Relative,
    Absolute,
    AbsoluteX,
    AbsoluteY,
    Indirect,
    IndirectX,
    IndirectY,
    Accumulator,
}

/// A decoded instruction.
#[derive(Debug, Eq, PartialEq, Structural, Clone, Copy)]
pub struct Instruction {
    pub operation: Operation,
    pub address_mode: AddressingMode,
    pub cycles: u8,
}

/// What resolving an addressing mode gives: the effective address, where the
/// mode has one, and whether indexing left the page of the base address.
#[derive(Debug, Eq, PartialEq, Structural, Clone, Copy)]
pub struct InstructionLoadData(pub Option<u16>, pub bool);

impl Operation {
    /// `STA`, `STX`, `STY`: the operations that only write their operand.
    pub open spec fn is_store(self) -> bool {
        self == Operation::STA || self == Operation::STX || self == Operation::STY
    }

    /// The operations that read their operand, change it and write it back.
    pub open spec fn is_read_modify_write(self) -> bool {
        self == Operation::ASL || self == Operation::LSR || self == Operation::ROL || self
            == Operation::ROR || self == Operation::INC || self == Operation::DEC
    }

    /// The eight conditional branches.
    pub open spec fn is_branch(self) -> bool {
        self == Operation::BPL || self == Operation::BMI || self == Operation::BVC || self
            == Operation::BVS || self == Operation::BCC || self == Operation::BCS || self
            == Operation::BNE || self == Operation::BEQ
    }

    /// The operations that cannot run without an effective address.
    pub open spec fn needs_address(self) -> bool {
        self.is_store() || self.is_branch() || self == Operation::JMP || self == Operation::JSR
    }

    /// The three-letter name of the operation.
    pub open spec fn mnemonic_text(self) -> Seq<char> {
        match self {
            Operation::BRK => "BRK"@,
            Operation::ORA => "ORA"@,
            Operation::ASL => "ASL"@,
            Operation::PHP => "PHP"@,
            Operation::BPL => "BPL"@,
            Operation::CLC => "CLC"@,
            Operation::JSR => "JSR"@,
            Operation::AND => "AND"@,
            Operation::BIT => "BIT"@,
            Operation::ROL => "ROL"@,
            Operation::PLP => "PLP"@,
            Operation::BMI => "BMI"@,
            Operation::SEC => "SEC"@,
            Operation::RTI => "RTI"@,
            Operation::EOR => "EOR"@,
            Operation::LSR => "LSR"@,
            Operation::PHA => "PHA"@,
            Operation::JMP => "JMP"@,
            Operation::BVC => "BVC"@,
            Operation::CLI => "CLI"@,
            Operation::RTS => "RTS"@,
            Operation::ADC => "ADC"@,
            Operation::ROR => "ROR"@,
            Operation::PLA => "PLA"@,
            Operation::STA => "STA"@,
            Operation::STY => "STY"@,
            Operation::STX => "STX"@,
            Operation::DEY => "DEY"@,
            Operation::TXA => "TXA"@,
            Operation::BCC => "BCC"@,
            Operation::INC => "INC"@,
            Operation::SBC => "SBC"@,
            Operation::SEI => "SEI"@,
            Operation::BVS => "BVS"@,
            Operation::TYA => "TYA"@,
            Operation::TXS => "TXS"@,
            Operation::LDY => "LDY"@,
            Operation::LDA => "LDA"@,
            Operation::LDX => "LDX"@,
            Operation::TAY => "TAY"@,
            Operation::TAX => "TAX"@,
            Operation::BCS => "BCS"@,
            Operation::CLV => "CLV"@,
            Operation::TSX => "TSX"@,
            Operation::CPY => "CPY"@,
            Operation::CMP => "CMP"@,
            Operation::DEX => "DEX"@,
            Operation::DEC => "DEC"@,
            Operation::INY => "INY"@,
            Operation::BNE => "BNE"@,
            Operation::CLD => "CLD"@,
            Operation::CPX => "CPX"@,
            Operation::INX => "INX"@,
            Operation::NOP => "NOP"@,
            Operation::BEQ => "BEQ"@,
            Operation::SED => "SED"@,
            Operation::UnknownOperation => "UNKNOWNOPERATION"@,
        }
    }

    /// Tells whether this is one of the three stores.
    pub fn stores(&self) -> (r: bool)
        ensures
            r == self.is_store(),
    {
        match self {
            Operation::STA | Operation::STX | Operation::STY => true,
            _ => false,
        }
    }

    /// Tells whether this is a read-modify-write operation.
    pub fn modifies_memory(&self) -> (r: bool)
        ensures
            r == self.is_read_modify_write(),
    {
        match self {
            Operation::ASL
            | Operation::LSR
            | Operation::ROL
            | Operation::ROR
            | Operation::INC
            | Operation::DEC => true,
            _ => false,
        }
    }

    /// The name under which a trace shows the operation.
    pub fn mnemonic(&self) -> (name: &'static str)
        ensures
            name@ == self.mnemonic_text(),
    {
        match self {
            Operation::BRK => "BRK",
            Operation::ORA => "ORA",
            Operation::ASL => "ASL",
            Operation::PHP => "PHP",
            Operation::BPL => "BPL",
            Operation::CLC => "CLC",
            Operation::JSR => "JSR",
            Operation::AND => "AND",
            Operation::BIT => "BIT",
            Operation::ROL => "ROL",
            Operation::PLP => "PLP",
            Operation::BMI => "BMI",
            Operation::SEC => "SEC",
            Operation::RTI => "RTI",
            Operation::EOR => "EOR",
            Operation::LSR => "LSR",
            Operation::PHA => "PHA",
            Operation::JMP => "JMP",
            Operation::BVC => "BVC",
            Operation::CLI => "CLI",
            Operation::RTS => "RTS",
            Operation::ADC => "ADC",
            Operation::ROR => "ROR",
            Operation::PLA => "PLA",
            Operation::STA => "STA",
            Operation::STY => "STY",
            Operation::STX => "STX",
            Operation::DEY => "DEY",
            Operation::TXA => "TXA",
            Operation::BCC => "BCC",
            Operation::INC => "INC",
            Operation::SBC => "SBC",
            Operation::SEI => "SEI",
            Operation::BVS => "BVS",
            Operation::TYA => "TYA",
            Operation::TXS => "TXS",
            Operation::LDY => "LDY",
            Operation::LDA => "LDA",
            Operation::LDX => "LDX",
            Operation::TAY => "TAY",
            Operation::TAX => "TAX",
            Operation::BCS => "BCS",
            Operation::CLV => "CLV",
            Operation::TSX => "TSX",
            Operation::CPY => "CPY",
            Operation::CMP => "CMP",
            Operation::DEX => "DEX",
            Operation::DEC => "DEC",
            Operation::INY => "INY",
            Operation::BNE => "BNE",
            Operation::CLD => "CLD",
            Operation::CPX => "CPX",
            Operation::INX => "INX",
            Operation::NOP => "NOP",
            Operation::BEQ => "BEQ",
            Operation::SED => "SED",
            Operation::UnknownOperation => "UNKNOWNOPERATION",
        }
    }
}

impl AddressingMode {
    /// Number of operand bytes that follow the opcode.
    pub open spec fn operand_length(self) -> u16 {
        match self {
            AddressingMode::Implied | AddressingMode::Accumulator => 0,
            AddressingMode::Absolute
            | AddressingMode::AbsoluteX
            | AddressingMode::AbsoluteY
            | AddressingMode::Indirect => 2,
            _ => 1,
        }
    }

    /// The mode resolves to an effective address (for `Relative`, to the raw offset byte).
    pub open spec fn has_address(self) -> bool {
        self != AddressingMode::Implied && self != AddressingMode::Accumulator
    }

    /// Number of operand bytes that follow the opcode.
    pub fn offset(&self) -> (r: u16)
        ensures
            r == self.operand_length(),
    {
        match self {
            AddressingMode::Implied | AddressingMode::Accumulator => 0,
            AddressingMode::Absolute
            | AddressingMode::AbsoluteX
            | AddressingMode::AbsoluteY
            | AddressingMode::Indirect => 2,
            _ => 1,
        }
    }
}

/// Operation of the accumulator group (opcodes `aaabbb01`), by `aaa`.
pub open spec fn accumulator_group_operation(a: int) -> Operation {
    if a == 0 {
        Operation::ORA
    } else if a == 1 {
        Operation::AND
    } else if a == 2 {
        Operation::EOR
    } else if a == 3 {
        Operation::ADC
    } else if a == 4 {
        Operation::STA
    } else if a == 5 {
        Operation::LDA
    } else if a == 6 {
        Operation::CMP
    } else {
        Operation::SBC
    }
}

/// Addressing mode of the accumulator group (opcodes `aaabbb01`), by `bbb`.
pub open spec fn accumulator_group_mode(b: int) -> AddressingMode {
    if b == 0 {
        AddressingMode::IndirectX
    } else if b == 1 {
        AddressingMode::ZeroPage
    } else if b == 2 {
        AddressingMode::Immediate
    } else if b == 3 {
        AddressingMode::Absolute
    } else if b == 4 {
        AddressingMode::IndirectY
    } else if b == 5 {
        AddressingMode::ZeroPageX
    } else if b == 6 {
        AddressingMode::AbsoluteY
    } else {
        AddressingMode::AbsoluteX
    }
}

/// Operation of the shift group (opcodes `aaabbb10`), by `aaa`.
pub open spec fn shift_group_operation(a: int) -> Operation {
    if a == 0 {
        Operation::ASL
    } else if a == 1 {
        Operation::ROL
    } else if a == 2 {
        Operation::LSR
    } else if a == 3 {
        Operation::ROR
    } else if a == 4 {
        Operation::STX
    } else if a == 5 {
        Operation::LDX
    } else if a == 6 {
        Operation::DEC
    } else {
        Operation::INC
    }
}

/// The official instruction `aaabbb10`, if there is one.
pub open spec fn shift_group(a: int, b: int) -> Option<(Operation, AddressingMode)> {
    let x_group = a == 4 || a == 5;
    if b == 0 {
        if a == 5 {
            Some((Operation::LDX, AddressingMode::Immediate))
        } else {
            None
        }
    } else if b == 1 {
        Some((shift_group_operation(a), AddressingMode::ZeroPage))
    } else if b == 2 {
        if a < 4 {
            Some((shift_group_operation(a), AddressingMode::Accumulator))
        } else if a == 4 {
            Some((Operation::TXA, AddressingMode::Implied))
        } else if a == 5 {
            Some((Operation::TAX, AddressingMode::Implied))
        } else if a == 6 {
            Some((Operation::DEX, AddressingMode::Implied))
        } else {
            Some((Operation::NOP, AddressingMode::Implied))
        }
    } else if b == 3 {
        Some((shift_group_operation(a), AddressingMode::Absolute))
    } else if b == 5 {
        Some(
            (
                shift_group_operation(a),
                if x_group {
                    AddressingMode::ZeroPageY
                } else {
                    AddressingMode::ZeroPageX
                },
            ),
        )
    } else if b == 6 {
        if a == 4 {
            Some((Operation::TXS, AddressingMode::Implied))
        } else if a == 5 {
            Some((Operation::TSX, AddressingMode::Implied))
        } else {
            None
        }
    } else if b == 7 {
        if a == 4 {
            None
        } else if a == 5 {
            Some((Operation::LDX, AddressingMode::AbsoluteY))
        } else {
            Some((shift_group_operation(a), AddressingMode::AbsoluteX))
        }
    } else {
        None
    }
}

/// Operation of the index-register group (opcodes `aaabbb00` with a memory
/// operand), by `aaa`; `aaa` below 4 is `BIT` where it is official at all.
pub open spec fn index_group_operation(a: int) -> Operation {
    if a == 4 {
        Operation::STY
    } else if a == 5 {
        Operation::LDY
    } else if a == 6 {
        Operation::CPY
    } else if a == 7 {
        Operation::CPX
    } else {
        Operation::BIT
    }
}

/// The branch `aaa10000`, by `aaa`.
pub open spec fn branch_operation(a: int) -> Operation {
    if a == 0 {
        Operation::BPL
    } else if a == 1 {
        Operation::BMI
    } else if a == 2 {
        Operation::BVC
    } else if a == 3 {
        Operation::BVS
    } else if a == 4 {
        Operation::BCC
    } else if a == 5 {
        Operation::BCS
    } else if a == 6 {
        Operation::BNE
    } else {
        Operation::BEQ
    }
}

/// The one-byte instruction `aaa01000`, by `aaa`.
pub open spec fn column_8_operation(a: int) -> Operation {
    if a == 0 {
        Operation::PHP
    } else if a == 1 {
        Operation::PLP
    } else if a == 2 {
        Operation::PHA
    } else if a == 3 {
        Operation::PLA
    } else if a == 4 {
        Operation::DEY
    } else if a == 5 {
        Operation::TAY
    } else if a == 6 {
        Operation::INY
    } else {
        Operation::INX
    }
}

/// The one-byte instruction `aaa11000`, by `aaa`.
pub open spec fn column_18_operation(a: int) -> Operation {
    if a == 0 {
        Operation::CLC
    } else if a == 1 {
        Operation::SEC
    } else if a == 2 {
        Operation::CLI
    } else if a == 3 {
        Operation::SEI
    } else if a == 4 {
        Operation::TYA
    } else if a == 5 {
        Operation::CLV
    } else if a == 6 {
        Operation::CLD
    } else {
        Operation::SED
    }
}

/// The official instruction `aaabbb00`, if there is one.
pub open spec fn control_group(a: int, b: int) -> Option<(Operation, AddressingMode)> {
    if b == 0 {
        if a == 0 {
            Some((Operation::BRK, AddressingMode::Implied))
        } else if a == 1 {
            Some((Operation::JSR, AddressingMode::Absolute))
        } else if a == 2 {
            Some((Operation::RTI, AddressingMode::Implied))
        } else if a == 3 {
            Some((Operation::RTS, AddressingMode::Implied))
        } else if a == 4 {
            None
        } else {
            Some((index_group_operation(a), AddressingMode::Immediate))
        }
    } else if b == 1 {
        if a == 0 || a == 2 || a == 3 {
            None
        } else {
            Some((index_group_operation(a), AddressingMode::ZeroPage))
        }
    } else if b == 2 {
        Some((column_8_operation(a), AddressingMode::Implied))
    } else if b == 3 {
        if a == 0 {
            None
        } else if a == 2 {
            Some((Operation::JMP, AddressingMode::Absolute))
        } else if a == 3 {
            Some((Operation::JMP, AddressingMode::Indirect))
        } else {
            Some((index_group_operation(a), AddressingMode::Absolute))
        }
    } else if b == 4 {
        Some((branch_operation(a), AddressingMode::Relative))
    } else if b == 5 {
        if a == 4 || a == 5 {
            Some((index_group_operation(a), AddressingMode::ZeroPageX))
        } else {
            None
        }
    } else if b == 6 {
        Some((column_18_operation(a), AddressingMode::Implied))
    } else {
        if a == 5 {
            Some((Operation::LDY, AddressingMode::AbsoluteX))
        } else {
            None
        }
    }
}

/// The official instruction behind an opcode, read off the instruction matrix:
/// the byte is `aaabbbcc`, `cc` picks the group, `aaa` the operation and `bbb`
/// the addressing mode. `None` for the 105 bytes that are no official opcode.
pub open spec fn official(opcode: u8) -> Option<(Operation, AddressingMode)> {
    let a = opcode as int / 32;
    let b = (opcode as int / 4) % 8;
    let c = opcode as int % 4;
    if c == 1 {
        if a == 4 && b == 2 {
            None
        } else {
            Some((accumulator_group_operation(a), accumulator_group_mode(b)))
        }
    } else if c == 2 {
        shift_group(a, b)
    } else if c == 0 {
        control_group(a, b)
    } else {
        None
    }
}

/// Cycles of an operation that only reads its operand, by addressing mode.
pub open spec fn read_cycles(mode: AddressingMode) -> u8 {
    match mode {
        AddressingMode::ZeroPage => 3,
        AddressingMode::ZeroPageX | AddressingMode::ZeroPageY => 4,
        AddressingMode::Absolute | AddressingMode::AbsoluteX | AddressingMode::AbsoluteY => 4,
        AddressingMode::Indirect => 5,
        AddressingMode::IndirectX => 6,
        AddressingMode::IndirectY => 5,
        _ => 2,
    }
}

/// Cycles of a store, by addressing mode: indexed stores always pay for the page crossing.
pub open spec fn store_cycles(mode: AddressingMode) -> u8 {
    match mode {
        AddressingMode::ZeroPage => 3,
        AddressingMode::ZeroPageX | AddressingMode::ZeroPageY => 4,
        AddressingMode::Absolute => 4,
        AddressingMode::AbsoluteX | AddressingMode::AbsoluteY => 5,
        AddressingMode::IndirectX | AddressingMode::IndirectY => 6,
        _ => 2,
    }
}

/// Cycles of a read-modify-write operation, by addressing mode.
pub open spec fn read_modify_write_cycles(mode: AddressingMode) -> u8 {
    match mode {
        AddressingMode::ZeroPage => 5,
        AddressingMode::ZeroPageX => 6,
        AddressingMode::Absolute => 6,
        AddressingMode::AbsoluteX => 7,
        _ => 2,
    }
}

/// Base cycle count of an official instruction.
pub open spec fn base_cycles(operation: Operation, mode: AddressingMode) -> u8 {
    if operation.is_store() {
        store_cycles(mode)
    } else if operation.is_read_modify_write() {
        read_modify_write_cycles(mode)
    } else {
        match operation {
            Operation::BRK => 7,
            Operation::JSR | Operation::RTS | Operation::RTI => 6,
            Operation::PHA | Operation::PHP => 3,
            Operation::PLA | Operation::PLP => 4,
            Operation::JMP => if mode == AddressingMode::Indirect {
                5
            } else {
                3
            },
            _ => read_cycles(mode),
        }
    }
}

/// The decode table: an official opcode gives its operation, its mode and its
/// base cycles; any other byte gives a `NOP` that takes no cycles.
pub open spec fn decode(opcode: u8) -> Instruction {
    match official(opcode) {
        Some((operation, address_mode)) => Instruction {
            operation,
            address_mode,
            cycles: base_cycles(operation, address_mode),
        },
        None => Instruction {
            operation: Operation::NOP,
            address_mode: AddressingMode::Implied,
            cycles: 0,
        },
    }
}

impl Instruction {
    /// The instruction can be executed: its operation is a real one, it has an
    /// effective address where the operation needs one, and its cycle count
    /// leaves room for the three cycles that execution may add.
    pub open spec fn executable(self) -> bool {
        &&& self.operation != Operation::UnknownOperation
        &&& self.operation.needs_address() ==> self.address_mode.has_address()
        &&& self.cycles <= 252
    }

    /// Decodes an opcode byte.
    pub fn from_u8(value: u8) -> (instruction: Instruction)
        ensures
            instruction == decode(value),
            instruction.executable(),
            instruction.cycles <= 7,
    {
        match value {
            0x00 => Instruction { operation: Operation::BRK, address_mode: AddressingMode::Implied, cycles: 7 },
            0x01 => Instruction { operation: Operation::ORA, address_mode: AddressingMode::IndirectX, cycles: 6 },
            0x05 => Instruction { operation: Operation::ORA, address_mode: AddressingMode::ZeroPage, cycles: 3 },
            0x06 => Instruction { operation: Operation::ASL, address_mode: AddressingMode::ZeroPage, cycles: 5 },
            0x08 => Instruction { operation: Operation::PHP, address_mode: AddressingMode::Implied, cycles: 3 },
            0x09 => Instruction { operation: Operation::ORA, address_mode: AddressingMode::Immediate, cycles: 2 },
            0x0A => Instruction { operation: Operation::ASL, address_mode: AddressingMode::Accumulator, cycles: 2 },
            0x0D => Instruction { operation: Operation::ORA, address_mode: AddressingMode::Absolute, cycles: 4 },
            0x0E => Instruction { operation: Operation::ASL, address_mode: AddressingMode::Absolute, cycles: 6 },
            0x10 => Instruction { operation: Operation::BPL, address_mode: AddressingMode::Relative, cycles: 2 },
            0x11 => Instruction { operation: Operation::ORA, address_mode: AddressingMode::IndirectY, cycles: 5 },
            0x15 => Instruction { operation: Operation::ORA, address_mode: AddressingMode::ZeroPageX, cycles: 4 },
            0x16 => Instruction { operation: Operation::ASL, address_mode: AddressingMode::ZeroPageX, cycles: 6 },
            0x18 => Instruction { operation: Operation::CLC, address_mode: AddressingMode::Implied, cycles: 2 },
            0x19 => Instruction { operation: Operation::ORA, address_mode: AddressingMode::AbsoluteY, cycles: 4 },
            0x1D => Instruction { operation: Operation::ORA, address_mode: AddressingMode::AbsoluteX, cycles: 4 },
            0x1E => Instruction { operation: Operation::ASL, address_mode: AddressingMode::AbsoluteX, cycles: 7 },
            0x20 => Instruction { operation: Operation::JSR, address_mode: AddressingMode::Absolute, cycles: 6 },
            0x21 => Instruction { operation: Operation::AND, address_mode: AddressingMode::IndirectX, cycles: 6 },
            0x24 => Instruction { operation: Operation::BIT, address_mode: AddressingMode::ZeroPage, cycles: 3 },
            0x25 => Instruction { operation: Operation::AND, address_mode: AddressingMode::ZeroPage, cycles: 3 },
            0x26 => Instruction { operation: Operation::ROL, address_mode: AddressingMode::ZeroPage, cycles: 5 },
            0x28 => Instruction { operation: Operation::PLP, address_mode: AddressingMode::Implied, cycles: 4 },
            0x29 => Instruction { operation: Operation::AND, address_mode: AddressingMode::Immediate, cycles: 2 },
            0x2A => Instruction { operation: Operation::ROL, address_mode: AddressingMode::Accumulator, cycles: 2 },
            0x2C => Instruction { operation: Operation::BIT, address_mode: AddressingMode::Absolute, cycles: 4 },
            0x2D => Instruction { operation: Operation::AND, address_mode: AddressingMode::Absolute, cycles: 4 },
            0x2E => Instruction { operation: Operation::ROL, address_mode: AddressingMode::Absolute, cycles: 6 },
            0x30 => Instruction { operation: Operation::BMI, address_mode: AddressingMode::Relative, cycles: 2 },
            0x31 => Instruction { operation: Operation::AND, address_mode: AddressingMode::IndirectY, cycles: 5 },
            0x35 => Instruction { operation: Operation::AND, address_mode: AddressingMode::ZeroPageX, cycles: 4 },
            0x36 => Instruction { operation: Operation::ROL, address_mode: AddressingMode::ZeroPageX, cycles: 6 },
            0x38 => Instruction { operation: Operation::SEC, address_mode: AddressingMode::Implied, cycles: 2 },
            0x39 => Instruction { operation: Operation::AND, address_mode: AddressingMode::AbsoluteY, cycles: 4 },
            0x3D => Instruction { operation: Operation::AND, address_mode: AddressingMode::AbsoluteX, cycles: 4 },
            0x3E => Instruction { operation: Operation::ROL, address_mode: AddressingMode::AbsoluteX, cycles: 7 },
            0x40 => Instruction { operation: Operation::RTI, address_mode: AddressingMode::Implied, cycles: 6 },
            0x41 => Instruction { operation: Operation::EOR, address_mode: AddressingMode::IndirectX, cycles: 6 },
            0x45 => Instruction { operation: Operation::EOR, address_mode: AddressingMode::ZeroPage, cycles: 3 },
            0x46 => Instruction { operation: Operation::LSR, address_mode: AddressingMode::ZeroPage, cycles: 5 },
            0x48 => Instruction { operation: Operation::PHA, address_mode: AddressingMode::Implied, cycles: 3 },
            0x49 => Instruction { operation: Operation::EOR, address_mode: AddressingMode::Immediate, cycles: 2 },
            0x4A => Instruction { operation: Operation::LSR, address_mode: AddressingMode::Accumulator, cycles: 2 },
            0x4C => Instruction { operation: Operation::JMP, address_mode: AddressingMode::Absolute, cycles: 3 },
            0x4D => Instruction { operation: Operation::EOR, address_mode: AddressingMode::Absolute, cycles: 4 },
            0x4E => Instruction { operation: Operation::LSR, address_mode: AddressingMode::Absolute, cycles: 6 },
            0x50 => Instruction { operation: Operation::BVC, address_mode: AddressingMode::Relative, cycles: 2 },
            0x51 => Instruction { operation: Operation::EOR, address_mode: AddressingMode::IndirectY, cycles: 5 },
            0x55 => Instruction { operation: Operation::EOR, address_mode: AddressingMode::ZeroPageX, cycles: 4 },
            0x56 => Instruction { operation: Operation::LSR, address_mode: AddressingMode::ZeroPageX, cycles: 6 },
            0x58 => Instruction { operation: Operation::CLI, address_mode: AddressingMode::Implied, cycles: 2 },
            0x59 => Instruction { operation: Operation::EOR, address_mode: AddressingMode::AbsoluteY, cycles: 4 },
            0x5D => Instruction { operation: Operation::EOR, address_mode: AddressingMode::AbsoluteX, cycles: 4 },
            0x5E => Instruction { operation: Operation::LSR, address_mode: AddressingMode::AbsoluteX, cycles: 7 },
            0x60 => Instruction { operation: Operation::RTS, address_mode: AddressingMode::Implied, cycles: 6 },
            0x61 => Instruction { operation: Operation::ADC, address_mode: AddressingMode::IndirectX, cycles: 6 },
            0x65 => Instruction { operation: Operation::ADC, address_mode: AddressingMode::ZeroPage, cycles: 3 },
            0x66 => Instruction { operation: Operation::ROR, address_mode: AddressingMode::ZeroPage, cycles: 5 },
            0x68 => Instruction { operation: Operation::PLA, address_mode: AddressingMode::Implied, cycles: 4 },
            0x69 => Instruction { operation: Operation::ADC, address_mode: AddressingMode::Immediate, cycles: 2 },
            0x6A => Instruction { operation: Operation::ROR, address_mode: AddressingMode::Accumulator, cycles: 2 },
            0x6C => Instruction { operation: Operation::JMP, address_mode: AddressingMode::Indirect, cycles: 5 },
            0x6D => Instruction { operation: Operation::ADC, address_mode: AddressingMode::Absolute, cycles: 4 },
            0x6E => Instruction { operation: Operation::ROR, address_mode: AddressingMode::Absolute, cycles: 6 },
            0x70 => Instruction { operation: Operation::BVS, address_mode: AddressingMode::Relative, cycles: 2 },
            0x71 => Instruction { operation: Operation::ADC, address_mode: AddressingMode::IndirectY, cycles: 5 },
            0x75 => Instruction { operation: Operation::ADC, address_mode: AddressingMode::ZeroPageX, cycles: 4 },
            0x76 => Instruction { operation: Operation::ROR, address_mode: AddressingMode::ZeroPageX, cycles: 6 },
            0x78 => Instruction { operation: Operation::SEI, address_mode: AddressingMode::Implied, cycles: 2 },
            0x79 => Instruction { operation: Operation::ADC, address_mode: AddressingMode::AbsoluteY, cycles: 4 },
            0x7D => Instruction { operation: Operation::ADC, address_mode: AddressingMode::AbsoluteX, cycles: 4 },
            0x7E => Instruction { operation: Operation::ROR, address_mode: AddressingMode::AbsoluteX, cycles: 7 },
            0x81 => Instruction { operation: Operation::STA, address_mode: AddressingMode::IndirectX, cycles: 6 },
            0x84 => Instruction { operation: Operation::STY, address_mode: AddressingMode::ZeroPage, cycles: 3 },
            0x85 => Instruction { operation: Operation::STA, address_mode: AddressingMode::ZeroPage, cycles: 3 },
            0x86 => Instruction { operation: Operation::STX, address_mode: AddressingMode::ZeroPage, cycles: 3 },
            0x88 => Instruction { operation: Operation::DEY, address_mode: AddressingMode::Implied, cycles: 2 },
            0x8A => Instruction { operation: Operation::TXA, address_mode: AddressingMode::Implied, cycles: 2 },
            0x8C => Instruction { operation: Operation::STY, address_mode: AddressingMode::Absolute, cycles: 4 },
            0x8D => Instruction { operation: Operation::STA, address_mode: AddressingMode::Absolute, cycles: 4 },
            0x8E => Instruction { operation: Operation::STX, address_mode: AddressingMode::Absolute, cycles: 4 },
            0x90 => Instruction { operation: Operation::BCC, address_mode: AddressingMode::Relative, cycles: 2 },
            0x91 => Instruction { operation: Operation::STA, address_mode: AddressingMode::IndirectY, cycles: 6 },
            0x94 => Instruction { operation: Operation::STY, address_mode: AddressingMode::ZeroPageX, cycles: 4 },
            0x95 => Instruction { operation: Operation::STA, address_mode: AddressingMode::ZeroPageX, cycles: 4 },
            0x96 => Instruction { operation: Operation::STX, address_mode: AddressingMode::ZeroPageY, cycles: 4 },
            0x98 => Instruction { operation: Operation::TYA, address_mode: AddressingMode::Implied, cycles: 2 },
            0x99 => Instruction { operation: Operation::STA, address_mode: AddressingMode::AbsoluteY, cycles: 5 },
            0x9A => Instruction { operation: Operation::TXS, address_mode: AddressingMode::Implied, cycles: 2 },
            0x9D => Instruction { operation: Operation::STA, address_mode: AddressingMode::AbsoluteX, cycles: 5 },
            0xA0 => Instruction { operation: Operation::LDY, address_mode: AddressingMode::Immediate, cycles: 2 },
            0xA1 => Instruction { operation: Operation::LDA, address_mode: AddressingMode::IndirectX, cycles: 6 },
            0xA2 => Instruction { operation: Operation::LDX, address_mode: AddressingMode::Immediate, cycles: 2 },
            0xA4 => Instruction { operation: Operation::LDY, address_mode: AddressingMode::ZeroPage, cycles: 3 },
            0xA5 => Instruction { operation: Operation::LDA, address_mode: AddressingMode::ZeroPage, cycles: 3 },
            0xA6 => Instruction { operation: Operation::LDX, address_mode: AddressingMode::ZeroPage, cycles: 3 },
            0xA8 => Instruction { operation: Operation::TAY, address_mode: AddressingMode::Implied, cycles: 2 },
            0xA9 => Instruction { operation: Operation::LDA, address_mode: AddressingMode::Immediate, cycles: 2 },
            0xAA => Instruction { operation: Operation::TAX, address_mode: AddressingMode::Implied, cycles: 2 },
            0xAC => Instruction { operation: Operation::LDY, address_mode: AddressingMode::Absolute, cycles: 4 },
            0xAD => Instruction { operation: Operation::LDA, address_mode: AddressingMode::Absolute, cycles: 4 },
            0xAE => Instruction { operation: Operation::LDX, address_mode: AddressingMode::Absolute, cycles: 4 },
            0xB0 => Instruction { operation: Operation::BCS, address_mode: AddressingMode::Relative, cycles: 2 },
            0xB1 => Instruction { operation: Operation::LDA, address_mode: AddressingMode::IndirectY, cycles: 5 },
            0xB4 => Instruction { operation: Operation::LDY, address_mode: AddressingMode::ZeroPageX, cycles: 4 },
            0xB5 => Instruction { operation: Operation::LDA, address_mode: AddressingMode::ZeroPageX, cycles: 4 },
            0xB6 => Instruction { operation: Operation::LDX, address_mode: AddressingMode::ZeroPageY, cycles: 4 },
            0xB8 => Instruction { operation: Operation::CLV, address_mode: AddressingMode::Implied, cycles: 2 },
            0xB9 => Instruction { operation: Operation::LDA, address_mode: AddressingMode::AbsoluteY, cycles: 4 },
            0xBA => Instruction { operation: Operation::TSX, address_mode: AddressingMode::Implied, cycles: 2 },
            0xBC => Instruction { operation: Operation::LDY, address_mode: AddressingMode::AbsoluteX, cycles: 4 },
            0xBD => Instruction { operation: Operation::LDA, address_mode: AddressingMode::AbsoluteX, cycles: 4 },
            0xBE => Instruction { operation: Operation::LDX, address_mode: AddressingMode::AbsoluteY, cycles: 4 },
            0xC0 => Instruction { operation: Operation::CPY, address_mode: AddressingMode::Immediate, cycles: 2 },
            0xC1 => Instruction { operation: Operation::CMP, address_mode: AddressingMode::IndirectX, cycles: 6 },
            0xC4 => Instruction { operation: Operation::CPY, address_mode: AddressingMode::ZeroPage, cycles: 3 },
            0xC5 => Instruction { operation: Operation::CMP, address_mode: AddressingMode::ZeroPage, cycles: 3 },
            0xC6 => Instruction { operation: Operation::DEC, address_mode: AddressingMode::ZeroPage, cycles: 5 },
            0xC8 => Instruction { operation: Operation::INY, address_mode: AddressingMode::Implied, cycles: 2 },
            0xC9 => Instruction { operation: Operation::CMP, address_mode: AddressingMode::Immediate, cycles: 2 },
            0xCA => Instruction { operation: Operation::DEX, address_mode: AddressingMode::Implied, cycles: 2 },
            0xCC => Instruction { operation: Operation::CPY, address_mode: AddressingMode::Absolute, cycles: 4 },
            0xCD => Instruction { operation: Operation::CMP, address_mode: AddressingMode::Absolute, cycles: 4 },
            0xCE => Instruction { operation: Operation::DEC, address_mode: AddressingMode::Absolute, cycles: 6 },
            0xD0 => Instruction { operation: Operation::BNE, address_mode: AddressingMode::Relative, cycles: 2 },
            0xD1 => Instruction { operation: Operation::CMP, address_mode: AddressingMode::IndirectY, cycles: 5 },
            0xD5 => Instruction { operation: Operation::CMP, address_mode: AddressingMode::ZeroPageX, cycles: 4 },
            0xD6 => Instruction { operation: Operation::DEC, address_mode: AddressingMode::ZeroPageX, cycles: 6 },
            0xD8 => Instruction { operation: Operation::CLD, address_mode: AddressingMode::Implied, cycles: 2 },
            0xD9 => Instruction { operation: Operation::CMP, address_mode: AddressingMode::AbsoluteY, cycles: 4 },
            0xDD => Instruction { operation: Operation::CMP, address_mode: AddressingMode::AbsoluteX, cycles: 4 },
            0xDE => Instruction { operation: Operation::DEC, address_mode: AddressingMode::AbsoluteX, cycles: 7 },
            0xE0 => Instruction { operation: Operation::CPX, address_mode: AddressingMode::Immediate, cycles: 2 },
            0xE1 => Instruction { operation: Operation::SBC, address_mode: AddressingMode::IndirectX, cycles: 6 },
            0xE4 => Instruction { operation: Operation::CPX, address_mode: AddressingMode::ZeroPage, cycles: 3 },
            0xE5 => Instruction { operation: Operation::SBC, address_mode: AddressingMode::ZeroPage, cycles: 3 },
            0xE6 => Instruction { operation: Operation::INC, address_mode: AddressingMode::ZeroPage, cycles: 5 },
            0xE8 => Instruction { operation: Operation::INX, address_mode: AddressingMode::Implied, cycles: 2 },
            0xE9 => Instruction { operation: Operation::SBC, address_mode: AddressingMode::Immediate, cycles: 2 },
            0xEA => Instruction { operation: Operation::NOP, address_mode: AddressingMode::Implied, cycles: 2 },
            0xEC => Instruction { operation: Operation::CPX, address_mode: AddressingMode::Absolute, cycles: 4 },
            0xED => Instruction { operation: Operation::SBC, address_mode: AddressingMode::Absolute, cycles: 4 },
            0xEE => Instruction { operation: Operation::INC, address_mode: AddressingMode::Absolute, cycles: 6 },
            0xF0 => Instruction { operation: Operation::BEQ, address_mode: AddressingMode::Relative, cycles: 2 },
            0xF1 => Instruction { operation: Operation::SBC, address_mode: AddressingMode::IndirectY, cycles: 5 },
            0xF5 => Instruction { operation: Operation::SBC, address_mode: AddressingMode::ZeroPageX, cycles: 4 },
            0xF6 => Instruction { operation: Operation::INC, address_mode: AddressingMode::ZeroPageX, cycles: 6 },
            0xF8 => Instruction { operation: Operation::SED, address_mode: AddressingMode::Implied, cycles: 2 },
            0xF9 => Instruction { operation: Operation::SBC, address_mode: AddressingMode::AbsoluteY, cycles: 4 },
            0xFD => Instruction { operation: Operation::SBC, address_mode: AddressingMode::AbsoluteX, cycles: 4 },
            0xFE => Instruction { operation: Operation::INC, address_mode: AddressingMode::AbsoluteX, cycles: 7 },
            _ => Instruction {
                operation: Operation::NOP,
                address_mode: AddressingMode::Implied,
                cycles: 0,
            },
        }
    }
}

} // verus!
