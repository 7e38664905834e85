//! Disassembly of the instruction at an address, and the trace line that
//! shows it beside the registers. Tracing peeks at the bus: it reads what a
//! read would return and changes nothing.
use crate::cpu::cpu::branch_offset;
use crate::cpu::cpu::Cpu;
use crate::cpu::cpu::CpuView;
use crate::cpu::execute::indirect_high_address;
use crate::cpu::instructions::decode;
use crate::cpu::instructions::AddressingMode;
use crate::cpu::instructions::Instruction;
use crate::cpu::instructions::Operation;
use num_traits::AsPrimitive;
use vstd::prelude::*;
use vstd::string::StrSliceExecFns;

verus! {

/// Width to which the bytes of an instruction are padded.
pub const BYTES_WIDTH: usize = 8;

/// Width to which the disassembly is padded in a trace line.
pub const DISASSEMBLY_WIDTH: usize = 47;

/// The digit for a value below sixteen, in upper case.
pub open spec fn hex_digit(n: int) -> char {
    if n == 0 {
        '0'
    } else if n == 1 {
        '1'
    } else if n == 2 {
        '2'
    } else if n == 3 {
        '3'
    } else if n == 4 {
        '4'
    } else if n == 5 {
        '5'
    } else if n == 6 {
        '6'
    } else if n == 7 {
        '7'
    } else if n == 8 {
        '8'
    } else if n == 9 {
        '9'
    } else if n == 10 {
        'A'
    } else if n == 11 {
        'B'
    } else if n == 12 {
        'C'
    } else if n == 13 {
        'D'
    } else if n == 14 {
        'E'
    } else {
        'F'
    }
}

/// A byte as two hexadecimal digits.
pub open spec fn hex2(value: u8) -> Seq<char> {
    seq![hex_digit(value as int / 16), hex_digit(value as int % 16)]
}

/// A word as four hexadecimal digits.
pub open spec fn hex4(value: u16) -> Seq<char> {
    hex2((value / 256) as u8) + hex2((value % 256) as u8)
}

/// A number in decimal, without leading zeros.
pub open spec fn decimal(n: nat) -> Seq<char>
    decreases n,
{
    if n < 10 {
        seq![hex_digit(n as int)]
    } else {
        decimal(n / 10).push(hex_digit((n % 10) as int))
    }
}

/// A text filled up with spaces at its end to `width` characters; a longer
/// text stays as it is.
pub open spec fn padded(text: Seq<char>, width: nat) -> Seq<char> {
    if text.len() >= width {
        text
    } else {
        text + Seq::new((width - text.len()) as nat, |i: int| ' ')
    }
}

/// Bytes as pairs of hexadecimal digits with a space between them.
pub open spec fn bytes_text(bytes: Seq<u8>) -> Seq<char>
    decreases bytes.len(),
{
    if bytes.len() == 0 {
        Seq::empty()
    } else if bytes.len() == 1 {
        hex2(bytes[0])
    } else {
        bytes_text(bytes.drop_last()) + seq![' '] + hex2(bytes.last())
    }
}

impl CpuView {
    /// The byte `offset` bytes behind `addr`.
    pub open spec fn byte_at(self, addr: u16, offset: u16) -> u8 {
        self.bus.peek(addr.wrapping_add(offset))
    }

    /// The word in the two bytes behind the opcode at `addr`.
    pub open spec fn operand_word(self, addr: u16) -> u16 {
        (self.byte_at(addr, 1) + 256 * self.byte_at(addr, 2)) as u16
    }

    /// The little-endian word whose low byte is at `lo` and whose high byte is at `hi`.
    pub open spec fn word_at(self, lo: u16, hi: u16) -> u16 {
        (self.bus.peek(lo) + 256 * self.bus.peek(hi)) as u16
    }

    /// The bytes of the instruction at `addr`: the opcode and its operand.
    pub open spec fn instruction_bytes(self, addr: u16) -> Seq<u8> {
        Seq::new(
            (1 + decode(self.byte_at(addr, 0)).address_mode.operand_length()) as nat,
            |i: int| self.byte_at(addr, i as u16),
        )
    }

    /// How the operand of a zero-page instruction is shown: the operand, for
    /// the indexed modes the effective address, and the byte found there.
    pub open spec fn zero_page_text(self, addr: u16, mode: AddressingMode) -> Seq<char> {
        let operand = self.byte_at(addr, 1);
        if mode == AddressingMode::ZeroPage {
            " $"@ + hex2(operand) + " = "@ + hex2(self.bus.peek(operand as u16))
        } else {
            let index = if mode == AddressingMode::ZeroPageX {
                self.r_x
            } else {
                self.r_y
            };
            let effective = operand.wrapping_add(index);
            " $"@ + hex2(operand) + (if mode == AddressingMode::ZeroPageX {
                ",X @ "@
            } else {
                ",Y @ "@
            }) + hex2(effective) + " = "@ + hex2(self.bus.peek(effective as u16))
        }
    }

    /// How the operand of an absolute instruction is shown: the address, for
    /// the indexed modes the effective address, and the byte found there. A
    /// jump shows its target alone.
    pub open spec fn absolute_text(
        self,
        addr: u16,
        mode: AddressingMode,
        operation: Operation,
    ) -> Seq<char> {
        let word = self.operand_word(addr);
        if mode == AddressingMode::Absolute {
            if operation == Operation::JMP || operation == Operation::JSR {
                " $"@ + hex4(word)
            } else {
                " $"@ + hex4(word) + " = "@ + hex2(self.bus.peek(word))
            }
        } else {
            let index = if mode == AddressingMode::AbsoluteX {
                self.r_x
            } else {
                self.r_y
            };
            let effective = word.wrapping_add(index as u16);
            " $"@ + hex4(word) + (if mode == AddressingMode::AbsoluteX {
                ",X @ "@
            } else {
                ",Y @ "@
            }) + hex4(effective) + " = "@ + hex2(self.bus.peek(effective))
        }
    }

    /// How the operand of an indirect instruction is shown: the pointer, what
    /// it points at, and for the indexed modes the byte at the effective
    /// address.
    pub open spec fn indirect_text(self, addr: u16, mode: AddressingMode) -> Seq<char> {
        let operand = self.byte_at(addr, 1);
        if mode == AddressingMode::Indirect {
            let pointer = self.operand_word(addr);
            " ($"@ + hex4(pointer) + ") = "@ + hex4(
                self.word_at(pointer, indirect_high_address(pointer)),
            )
        } else if mode == AddressingMode::IndirectX {
            let pointer = operand.wrapping_add(self.r_x);
            let target = self.word_at(pointer as u16, pointer.wrapping_add(1) as u16);
            " ($"@ + hex2(operand) + ",X) @ "@ + hex2(pointer) + " = "@ + hex4(target) + " = "@
                + hex2(self.bus.peek(target))
        } else {
            let base = self.word_at(operand as u16, operand.wrapping_add(1) as u16);
            let effective = base.wrapping_add(self.r_y as u16);
            " ($"@ + hex2(operand) + "),Y = "@ + hex4(base) + " @ "@ + hex4(effective) + " = "@
                + hex2(self.bus.peek(effective))
        }
    }

    /// How the operand of `instruction` at `addr` is shown.
    pub open spec fn operand_text(self, addr: u16, instruction: Instruction) -> Seq<char> {
        match instruction.address_mode {
            AddressingMode::Implied => Seq::empty(),
            AddressingMode::Accumulator => " A"@,
            AddressingMode::Immediate => " #$"@ + hex2(self.byte_at(addr, 1)),
            AddressingMode::Relative => " $"@ + hex4(
                addr.wrapping_add(2).wrapping_add(branch_offset(self.byte_at(addr, 1) as u16)),
            ),
            AddressingMode::ZeroPage
            | AddressingMode::ZeroPageX
            | AddressingMode::ZeroPageY => self.zero_page_text(addr, instruction.address_mode),
            AddressingMode::Absolute
            | AddressingMode::AbsoluteX
            | AddressingMode::AbsoluteY => self.absolute_text(
                addr,
                instruction.address_mode,
                instruction.operation,
            ),
            AddressingMode::Indirect
            | AddressingMode::IndirectX
            | AddressingMode::IndirectY => self.indirect_text(addr, instruction.address_mode),
        }
    }

    /// The disassembly of the instruction at `addr`: the address, the bytes
    /// of the instruction, its name and its operand.
    pub open spec fn disassembly(self, addr: u16) -> Seq<char> {
        let instruction = decode(self.byte_at(addr, 0));
        hex4(addr) + "  "@ + padded(bytes_text(self.instruction_bytes(addr)), BYTES_WIDTH as nat)
            + "  "@ + instruction.operation.mnemonic_text() + self.operand_text(
            addr,
            instruction,
        )
    }

    /// The address behind the instruction at `addr`.
    pub open spec fn next_instruction(self, addr: u16) -> u16 {
        addr.wrapping_add((1 + decode(self.byte_at(addr, 0)).address_mode.operand_length()) as u16)
    }

    /// The trace line for the instruction at the program counter: its
    /// disassembly, the registers in hexadecimal, the cycle count in decimal,
    /// and a line feed.
    pub open spec fn trace_line(self) -> Seq<char> {
        padded(self.disassembly(self.pc), DISASSEMBLY_WIDTH as nat) + " A:"@ + hex2(self.r_a)
            + " X:"@ + hex2(self.r_x) + " Y:"@ + hex2(self.r_y) + " P:"@ + hex2(self.status.bits)
            + " SP:"@ + hex2(self.sp) + " CYC:"@ + decimal(self.cycle as nat) + "\n"@
    }
}

/// `String::from_iter` on the characters of a vector: the string made of
/// those characters in their order.
#[verifier::external_body]
fn string_from_chars(chars: &Vec<char>) -> (text: String)
    ensures
        text@ == chars@,
{
    String::from_iter(chars)
}

/// `num_traits::AsPrimitive::<u16>::as_` on a `usize`: the value cut down to
/// its low sixteen bits, as the `as` operator of the language does.
#[verifier::external_body]
fn length_as_u16(length: usize) -> (value: u16)
    ensures
        value == length % 0x10000,
{
    AsPrimitive::<u16>::as_(length)
}

/// The digit for a value below sixteen.
fn hex_char(n: u8) -> (c: char)
    requires
        n < 16,
    ensures
        c == hex_digit(n as int),
{
    match n {
        0 => '0',
        1 => '1',
        2 => '2',
        3 => '3',
        4 => '4',
        5 => '5',
        6 => '6',
        7 => '7',
        8 => '8',
        9 => '9',
        10 => 'A',
        11 => 'B',
        12 => 'C',
        13 => 'D',
        14 => 'E',
        _ => 'F',
    }
}

/// Appends a byte as two hexadecimal digits.
fn push_hex2(out: &mut Vec<char>, value: u8)
    ensures
        final(out)@ == old(out)@ + hex2(value),
{
    out.push(hex_char(value / 16));
    out.push(hex_char(value % 16));
    assert(out@ =~= old(out)@ + hex2(value));
}

/// Appends a word as four hexadecimal digits.
fn push_hex4(out: &mut Vec<char>, value: u16)
    ensures
        final(out)@ == old(out)@ + hex4(value),
{
    push_hex2(out, (value / 256) as u8);
    push_hex2(out, (value % 256) as u8);
    assert(out@ =~= old(out)@ + hex4(value));
}

/// Appends the characters of a string.
fn push_text(out: &mut Vec<char>, text: &str)
    ensures
        final(out)@ == old(out)@ + text@,
{
    let length = text.unicode_len();
    let mut i: usize = 0;
    while i < length
        invariant
            i <= length,
            length == text@.len(),
            out@ == old(out)@ + text@.subrange(0, i as int),
        decreases length - i,
    {
        out.push(text.get_char(i));
        i += 1;
        assert(out@ =~= old(out)@ + text@.subrange(0, i as int));
    }
    assert(text@.subrange(0, length as int) =~= text@);
}

/// Appends a number in decimal.
fn push_decimal(out: &mut Vec<char>, n: u64)
    ensures
        final(out)@ == old(out)@ + decimal(n as nat),
    decreases n,
{
    if n >= 10 {
        push_decimal(out, n / 10);
    }
    out.push(hex_char((n % 10) as u8));
    assert(out@ =~= old(out)@ + decimal(n as nat));
}

/// Fills a text up with spaces to `width` characters.
fn pad_to(out: &mut Vec<char>, width: usize)
    ensures
        final(out)@ == padded(old(out)@, width as nat),
{
    while out.len() < width
        invariant
            old(out)@.len() <= out@.len(),
            old(out)@.len() < width ==> out@.len() <= width,
            old(out)@.len() >= width ==> out@.len() == old(out)@.len(),
            forall|k: int| 0 <= k < old(out)@.len() ==> out@[k] == old(out)@[k],
            forall|k: int| old(out)@.len() <= k < out@.len() ==> out@[k] == ' ',
        decreases width - out.len(),
    {
        out.push(' ');
    }
    assert(out@ =~= padded(old(out)@, width as nat));
}

impl Cpu {
    /// The word whose low byte is at `lo` and whose high byte is at `hi`.
    fn peek_word(&self, lo: u16, hi: u16) -> (word: u16)
        requires
            self.wf(),
        ensures
            word == self@.word_at(lo, hi),
    {
        self.bus.peek(hi) as u16 * 256 + self.bus.peek(lo) as u16
    }

    /// Shows the operand of a zero-page instruction at `addr`.
    fn push_zero_page(&self, out: &mut Vec<char>, addr: u16, mode: &AddressingMode)
        requires
            self.wf(),
            *mode == AddressingMode::ZeroPage || *mode == AddressingMode::ZeroPageX || *mode
                == AddressingMode::ZeroPageY,
        ensures
            final(out)@ == old(out)@ + self@.zero_page_text(addr, *mode),
    {
        let operand = self.bus.peek(addr.wrapping_add(1));
        push_text(out, " $");
        push_hex2(out, operand);
        match mode {
            AddressingMode::ZeroPage => {
                push_text(out, " = ");
                push_hex2(out, self.bus.peek(operand as u16));
            },
            AddressingMode::ZeroPageX => {
                let effective = operand.wrapping_add(self.r_x);
                push_text(out, ",X @ ");
                push_hex2(out, effective);
                push_text(out, " = ");
                push_hex2(out, self.bus.peek(effective as u16));
            },
            _ => {
                let effective = operand.wrapping_add(self.r_y);
                push_text(out, ",Y @ ");
                push_hex2(out, effective);
                push_text(out, " = ");
                push_hex2(out, self.bus.peek(effective as u16));
            },
        }
        assert(out@ =~= old(out)@ + self@.zero_page_text(addr, *mode));
    }

    /// Shows the operand of an absolute instruction at `addr`.
    fn push_absolute(
        &self,
        out: &mut Vec<char>,
        addr: u16,
        mode: &AddressingMode,
        operation: &Operation,
    )
        requires
            self.wf(),
            *mode == AddressingMode::Absolute || *mode == AddressingMode::AbsoluteX || *mode
                == AddressingMode::AbsoluteY,
        ensures
            final(out)@ == old(out)@ + self@.absolute_text(addr, *mode, *operation),
    {
        let word = self.peek_word(addr.wrapping_add(1), addr.wrapping_add(2));
        push_text(out, " $");
        push_hex4(out, word);
        match mode {
            AddressingMode::Absolute => {
                let jump = match operation {
                    Operation::JMP | Operation::JSR => true,
                    _ => false,
                };
                if !jump {
                    push_text(out, " = ");
                    push_hex2(out, self.bus.peek(word));
                }
            },
            AddressingMode::AbsoluteX => {
                let effective = word.wrapping_add(self.r_x as u16);
                push_text(out, ",X @ ");
                push_hex4(out, effective);
                push_text(out, " = ");
                push_hex2(out, self.bus.peek(effective));
            },
            _ => {
                let effective = word.wrapping_add(self.r_y as u16);
                push_text(out, ",Y @ ");
                push_hex4(out, effective);
                push_text(out, " = ");
                push_hex2(out, self.bus.peek(effective));
            },
        }
        assert(out@ =~= old(out)@ + self@.absolute_text(addr, *mode, *operation));
    }

    /// Shows the operand of an indirect instruction at `addr`.
    #[verifier::rlimit(30)]
    fn push_indirect(&self, out: &mut Vec<char>, addr: u16, mode: &AddressingMode)
        requires
            self.wf(),
            *mode == AddressingMode::Indirect || *mode == AddressingMode::IndirectX || *mode
                == AddressingMode::IndirectY,
        ensures
            final(out)@ == old(out)@ + self@.indirect_text(addr, *mode),
    {
        let operand = self.bus.peek(addr.wrapping_add(1));
        push_text(out, " ($");
        match mode {
            AddressingMode::Indirect => {
                let pointer = self.peek_word(addr.wrapping_add(1), addr.wrapping_add(2));
                let target = self.peek_word(
                    pointer,
                    (pointer / 256) * 256 + (pointer % 256 + 1) % 256,
                );
                push_hex4(out, pointer);
                push_text(out, ") = ");
                push_hex4(out, target);
            },
            AddressingMode::IndirectX => {
                let pointer = operand.wrapping_add(self.r_x);
                let target = self.peek_word(pointer as u16, pointer.wrapping_add(1) as u16);
                push_hex2(out, operand);
                push_text(out, ",X) @ ");
                push_hex2(out, pointer);
                push_text(out, " = ");
                push_hex4(out, target);
                push_text(out, " = ");
                push_hex2(out, self.bus.peek(target));
            },
            _ => {
                let base = self.peek_word(operand as u16, operand.wrapping_add(1) as u16);
                let effective = base.wrapping_add(self.r_y as u16);
                push_hex2(out, operand);
                push_text(out, "),Y = ");
                push_hex4(out, base);
                push_text(out, " @ ");
                push_hex4(out, effective);
                push_text(out, " = ");
                push_hex2(out, self.bus.peek(effective));
            },
        }
        assert(out@ =~= old(out)@ + self@.indirect_text(addr, *mode));
    }

    /// Shows the operand of `instruction` at `addr`.
    fn push_operand(&self, out: &mut Vec<char>, addr: u16, instruction: &Instruction)
        requires
            self.wf(),
        ensures
            final(out)@ == old(out)@ + self@.operand_text(addr, *instruction),
    {
        match instruction.address_mode {
            AddressingMode::Implied => {
                assert(out@ =~= old(out)@ + self@.operand_text(addr, *instruction));
            },
            AddressingMode::Accumulator => {
                push_text(out, " A");
            },
            AddressingMode::Immediate => {
                push_text(out, " #$");
                push_hex2(out, self.bus.peek(addr.wrapping_add(1)));
                assert(out@ =~= old(out)@ + self@.operand_text(addr, *instruction));
            },
            AddressingMode::Relative => {
                let operand = self.bus.peek(addr.wrapping_add(1)) as u16;
                let offset: u16 = if (operand / 128) % 2 == 1 {
                    0xFF00 + operand % 256
                } else {
                    operand
                };
                push_text(out, " $");
                push_hex4(out, addr.wrapping_add(2).wrapping_add(offset));
                assert(out@ =~= old(out)@ + self@.operand_text(addr, *instruction));
            },
            AddressingMode::ZeroPage | AddressingMode::ZeroPageX | AddressingMode::ZeroPageY => {
                self.push_zero_page(out, addr, &instruction.address_mode);
            },
            AddressingMode::Absolute | AddressingMode::AbsoluteX | AddressingMode::AbsoluteY => {
                self.push_absolute(out, addr, &instruction.address_mode, &instruction.operation);
            },
            AddressingMode::Indirect | AddressingMode::IndirectX | AddressingMode::IndirectY => {
                self.push_indirect(out, addr, &instruction.address_mode);
            },
        }
    }

    /// The bytes of the instruction at `addr`.
    fn read_instruction_bytes(&self, addr: u16, instruction: &Instruction) -> (bytes: Vec<u8>)
        requires
            self.wf(),
            *instruction == decode(self@.byte_at(addr, 0)),
        ensures
            bytes@ == self@.instruction_bytes(addr),
    {
        let count: u16 = 1 + instruction.address_mode.offset();
        let mut bytes: Vec<u8> = Vec::with_capacity(3);
        let mut i: u16 = 0;
        while i < count
            invariant
                i <= count,
                count <= 3,
                self.wf(),
                bytes@.len() == i,
                forall|k: int| 0 <= k < i ==> #[trigger] bytes@[k] == self@.byte_at(addr, k as u16),
            decreases count - i,
        {
            bytes.push(self.bus.peek(addr.wrapping_add(i)));
            i += 1;
        }
        assert(bytes@ =~= self@.instruction_bytes(addr));
        bytes
    }

    /// The disassembly of the instruction at `addr`, and the address of the
    /// instruction behind it.
    pub fn trace_instruction(&self, addr: u16) -> (result: (String, u16))
        requires
            self.wf(),
        ensures
            result.0@ == self@.disassembly(addr),
            result.1 == self@.next_instruction(addr),
    {
        let opcode = self.bus.peek(addr);
        let instruction = Instruction::from_u8(opcode);
        let instruction_bytes = self.read_instruction_bytes(addr, &instruction);
        let mut byte_text: Vec<char> = Vec::new();
        let mut i: usize = 0;
        while i < instruction_bytes.len()
            invariant
                i <= instruction_bytes.len(),
                byte_text@ == bytes_text(instruction_bytes@.subrange(0, i as int)),
            decreases instruction_bytes.len() - i,
        {
            if i > 0 {
                byte_text.push(' ');
            }
            push_hex2(&mut byte_text, instruction_bytes[i]);
            i += 1;
            proof {
                let bytes = instruction_bytes@.subrange(0, i as int);
                assert(bytes.drop_last() =~= instruction_bytes@.subrange(0, i - 1));
                assert(byte_text@ =~= bytes_text(bytes));
            }
        }
        assert(instruction_bytes@.subrange(0, i as int) =~= instruction_bytes@);
        pad_to(&mut byte_text, BYTES_WIDTH);
        let mut out: Vec<char> = Vec::new();
        push_hex4(&mut out, addr);
        push_text(&mut out, "  ");
        let mut k: usize = 0;
        while k < byte_text.len()
            invariant
                k <= byte_text.len(),
                out@ == hex4(addr) + "  "@ + byte_text@.subrange(0, k as int),
            decreases byte_text.len() - k,
        {
            out.push(byte_text[k]);
            k += 1;
            assert(out@ =~= hex4(addr) + "  "@ + byte_text@.subrange(0, k as int));
        }
        assert(byte_text@.subrange(0, k as int) =~= byte_text@);
        push_text(&mut out, "  ");
        push_text(&mut out, instruction.operation.mnemonic());
        self.push_operand(&mut out, addr, &instruction);
        assert(out@ =~= self@.disassembly(addr));
        (string_from_chars(&out), addr.wrapping_add(length_as_u16(instruction_bytes.len())))
    }

    /// The trace line for the instruction at the program counter, and the
    /// address of the instruction behind it.
    pub fn trace(&self) -> (result: (String, u16))
        requires
            self.wf(),
        ensures
            result.0@ == self@.trace_line(),
            result.1 == self@.next_instruction(self.pc),
    {
        let instruction = self.trace_instruction(self.pc);
        let text = instruction.0.as_str();
        let mut out: Vec<char> = Vec::new();
        push_text(&mut out, text);
        assert(out@ =~= self@.disassembly(self.pc));
        pad_to(&mut out, DISASSEMBLY_WIDTH);
        push_text(&mut out, " A:");
        push_hex2(&mut out, self.r_a);
        push_text(&mut out, " X:");
        push_hex2(&mut out, self.r_x);
        push_text(&mut out, " Y:");
        push_hex2(&mut out, self.r_y);
        push_text(&mut out, " P:");
        push_hex2(&mut out, self.status.bits());
        push_text(&mut out, " SP:");
        push_hex2(&mut out, self.sp);
        push_text(&mut out, " CYC:");
        push_decimal(&mut out, self.cycle);
        push_text(&mut out, "\n");
        (string_from_chars(&out), instruction.1)
    }
}

} // verus!
