//! Disassembly of the instructions at the program counter.
//!
//! Each line reads `AAAA: MNE OPERAND`, with the address in four hex digits
//! and the operand padded with spaces to ten characters.
use vstd::prelude::*;

use super::arith::{inc16, make_word, signed, word};
use super::decode::{decode, decode_spec, mnemonic, op_name};
use super::mode::AddressingMode;
use super::semantics::Op;
use super::Cpu;
use crate::bus::DuNesBus;

verus! {

/// The number of instructions that [`Cpu::disassemble`] shows.
pub const DISASSEMBLY_INSTRUCTIONS: usize = 15;

/// The width to which operands are padded.
pub const OPERAND_WIDTH: usize = 10;

/// The upper-case hexadecimal digit for `d`, below 16.
pub open spec fn hex_digit(d: int) -> char {
    if d < 10 {
        (48 + d) as char
    } else {
        (55 + d) as char
    }
}

/// A byte in two hexadecimal digits.
pub open spec fn hex2(v: u8) -> Seq<char> {
    seq![hex_digit(v as int / 16), hex_digit(v as int % 16)]
}

/// A word in four hexadecimal digits.
pub open spec fn hex4(w: u16) -> Seq<char> {
    hex2((w as int / 256) as u8) + hex2((w as int % 256) as u8)
}

/// The number of operand bytes that follow an opcode.
pub open spec fn operand_len(mode: AddressingMode) -> int {
    match mode {
        AddressingMode::Accumulator | AddressingMode::Implied => 0,
        AddressingMode::Absolute | AddressingMode::AbsoluteX | AddressingMode::AbsoluteY
        | AddressingMode::Indirect => 2,
        _ => 1,
    }
}

/// The target of a branch whose offset byte is `offset` and whose next
/// instruction is at `next`.
pub open spec fn branch_target(next: u16, offset: u8) -> u16 {
    ((next + signed(offset)) % 65536) as u16
}

/// The operand text of an instruction in mode `mode` whose operand bytes
/// are `lo` and `hi` and whose next instruction is at `next`.
pub open spec fn operand_text(mode: AddressingMode, lo: u8, hi: u8, next: u16) -> Seq<char> {
    match mode {
        AddressingMode::Absolute => seq!['$'] + hex4(word(lo, hi)),
        AddressingMode::AbsoluteX => seq!['$'] + hex4(word(lo, hi)) + seq![',', ' ', 'X'],
        AddressingMode::AbsoluteY => seq!['$'] + hex4(word(lo, hi)) + seq![',', ' ', 'Y'],
        AddressingMode::Accumulator => seq!['A'],
        AddressingMode::Immediate => seq!['#', '$'] + hex2(lo),
        AddressingMode::Indirect => seq!['(', '$'] + hex4(word(lo, hi)) + seq![')'],
        AddressingMode::Implied => seq![],
        AddressingMode::IndexedIndirect => seq!['(', '$'] + hex2(lo) + seq![',', ' ', 'X', ')'],
        AddressingMode::IndirectIndexed => seq!['(', '$'] + hex2(lo) + seq![')', ',', ' ', 'Y'],
        AddressingMode::Relative => seq!['$'] + hex4(branch_target(next, lo)),
        AddressingMode::ZeroPage => seq!['$'] + hex2(lo),
        AddressingMode::ZeroPageX => seq!['$'] + hex2(lo) + seq![',', ' ', 'X'],
        AddressingMode::ZeroPageY => seq!['$'] + hex2(lo) + seq![',', ' ', 'Y'],
    }
}

/// `s` padded on the right with spaces to `OPERAND_WIDTH` characters.
pub open spec fn pad(s: Seq<char>) -> Seq<char> {
    if s.len() < OPERAND_WIDTH {
        s + Seq::new((OPERAND_WIDTH - s.len()) as nat, |i: int| ' ')
    } else {
        s
    }
}

/// The opcode that the disassembler reads at `pc`: only RAM and cartridge
/// space are read, other addresses show opcode 0.
pub open spec fn opcode_at(bus: DuNesBus, pc: u16) -> u8 {
    if pc <= 0x1fff || 0x4020 <= pc {
        bus.peek_value(pc)
    } else {
        0
    }
}

/// The addressing mode of the instruction at `pc`.
pub open spec fn mode_at(bus: DuNesBus, pc: u16) -> AddressingMode {
    decode_spec(opcode_at(bus, pc)).1
}

/// The address of the instruction after the one at `pc`.
pub open spec fn next_instruction(bus: DuNesBus, pc: u16) -> u16 {
    ((pc + 1 + operand_len(mode_at(bus, pc))) % 65536) as u16
}

/// The address of the `i`th instruction from `pc`.
pub open spec fn instruction_address(bus: DuNesBus, pc: u16, i: nat) -> u16
    decreases i,
{
    if i == 0 {
        pc
    } else {
        next_instruction(bus, instruction_address(bus, pc, (i - 1) as nat))
    }
}

/// The operand word of the instruction at `pc` does not start at 0xFFFF,
/// where reading its second byte would overflow the address.
pub open spec fn operand_fits(bus: DuNesBus, pc: u16) -> bool {
    operand_len(mode_at(bus, pc)) == 2 ==> inc16(pc) != 0xffff
}

/// The disassembly line of the instruction at `pc`.
pub open spec fn line(bus: DuNesBus, pc: u16) -> Seq<char> {
    let (op, mode) = decode_spec(opcode_at(bus, pc));
    let a = inc16(pc);
    let operand = operand_text(mode, bus.peek_value(a), bus.peek_value(inc16(a)), inc16(a));
    hex4(pc) + seq![':', ' '] + op_name(op)@ + seq![' '] + pad(operand)
}

/// The string of one hexadecimal digit.
fn digit(d: u8) -> (s: &'static str)
    requires
        d < 16,
    ensures
        s@ == seq![hex_digit(d as int)],
{
    if d == 0 {
        proof { reveal_strlit("0"); }
        "0"
    } else if d == 1 {
        proof { reveal_strlit("1"); }
        "1"
    } else if d == 2 {
        proof { reveal_strlit("2"); }
        "2"
    } else if d == 3 {
        proof { reveal_strlit("3"); }
        "3"
    } else if d == 4 {
        proof { reveal_strlit("4"); }
        "4"
    } else if d == 5 {
        proof { reveal_strlit("5"); }
        "5"
    } else if d == 6 {
        proof { reveal_strlit("6"); }
        "6"
    } else if d == 7 {
        proof { reveal_strlit("7"); }
        "7"
    } else if d == 8 {
        proof { reveal_strlit("8"); }
        "8"
    } else if d == 9 {
        proof { reveal_strlit("9"); }
        "9"
    } else if d == 10 {
        proof { reveal_strlit("A"); }
        "A"
    } else if d == 11 {
        proof { reveal_strlit("B"); }
        "B"
    } else if d == 12 {
        proof { reveal_strlit("C"); }
        "C"
    } else if d == 13 {
        proof { reveal_strlit("D"); }
        "D"
    } else if d == 14 {
        proof { reveal_strlit("E"); }
        "E"
    } else {
        proof { reveal_strlit("F"); }
        "F"
    }
}

/// Appends a byte in two hexadecimal digits.
fn push_hex2(s: &mut String, v: u8)
    ensures
        final(s)@ == old(s)@ + hex2(v),
{
    s.append(digit(v / 16));
    s.append(digit(v % 16));
}

/// Appends a word in four hexadecimal digits.
fn push_hex4(s: &mut String, w: u16)
    ensures
        final(s)@ == old(s)@ + hex4(w),
{
    push_hex2(s, (w / 256) as u8);
    push_hex2(s, (w % 256) as u8);
}

/// Appends `prefix`, the word `w` in hexadecimal, and `suffix`.
fn push_word(s: &mut String, prefix: &str, w: u16, suffix: &str)
    ensures
        final(s)@ == old(s)@ + prefix@ + hex4(w) + suffix@,
{
    s.append(prefix);
    push_hex4(s, w);
    s.append(suffix);
}

/// Appends `prefix`, the byte `v` in hexadecimal, and `suffix`.
fn push_byte(s: &mut String, prefix: &str, v: u8, suffix: &str)
    ensures
        final(s)@ == old(s)@ + prefix@ + hex2(v) + suffix@,
{
    s.append(prefix);
    push_hex2(s, v);
    s.append(suffix);
}

/// The number of operand bytes that follow an opcode.
fn operand_bytes(mode: AddressingMode) -> (n: u16)
    ensures
        n == operand_len(mode),
{
    match mode {
        AddressingMode::Accumulator | AddressingMode::Implied => 0,
        AddressingMode::Absolute | AddressingMode::AbsoluteX | AddressingMode::AbsoluteY
        | AddressingMode::Indirect => 2,
        _ => 1,
    }
}

/// Appends the operand text, and returns its length.
#[verifier::rlimit(40)]
fn push_operand(s: &mut String, mode: AddressingMode, lo: u8, hi: u8, next: u16) -> (n: usize)
    ensures
        final(s)@ == old(s)@ + operand_text(mode, lo, hi, next),
        n == operand_text(mode, lo, hi, next).len(),
        n <= 8,
{
    let w = make_word(lo, hi);
    match mode {
        AddressingMode::Absolute => {
            proof { reveal_strlit("$"); reveal_strlit(""); }
            push_word(s, "$", w, "");
            5
        },
        AddressingMode::AbsoluteX => {
            proof { reveal_strlit("$"); reveal_strlit(", X"); }
            push_word(s, "$", w, ", X");
            8
        },
        AddressingMode::AbsoluteY => {
            proof { reveal_strlit("$"); reveal_strlit(", Y"); }
            push_word(s, "$", w, ", Y");
            8
        },
        AddressingMode::Accumulator => {
            proof { reveal_strlit("A"); }
            s.append("A");
            1
        },
        AddressingMode::Immediate => {
            proof { reveal_strlit("#$"); reveal_strlit(""); }
            push_byte(s, "#$", lo, "");
            4
        },
        AddressingMode::Indirect => {
            proof { reveal_strlit("($"); reveal_strlit(")"); }
            push_word(s, "($", w, ")");
            7
        },
        AddressingMode::Implied => {
            assert(old(s)@ + operand_text(mode, lo, hi, next) =~= old(s)@);
            0
        },
        AddressingMode::IndexedIndirect => {
            proof { reveal_strlit("($"); reveal_strlit(", X)"); }
            push_byte(s, "($", lo, ", X)");
            8
        },
        AddressingMode::IndirectIndexed => {
            proof { reveal_strlit("($"); reveal_strlit("), Y"); }
            push_byte(s, "($", lo, "), Y");
            8
        },
        AddressingMode::Relative => {
            // The offset is a signed byte.
            let offset: u16 = if lo < 128 { lo as u16 } else { lo as u16 + 0xff00 };
            let target = next.wrapping_add(offset);
            assert(target == branch_target(next, lo));
            proof { reveal_strlit("$"); reveal_strlit(""); }
            push_word(s, "$", target, "");
            5
        },
        AddressingMode::ZeroPage => {
            proof { reveal_strlit("$"); reveal_strlit(""); }
            push_byte(s, "$", lo, "");
            3
        },
        AddressingMode::ZeroPageX => {
            proof { reveal_strlit("$"); reveal_strlit(", X"); }
            push_byte(s, "$", lo, ", X");
            6
        },
        AddressingMode::ZeroPageY => {
            proof { reveal_strlit("$"); reveal_strlit(", Y"); }
            push_byte(s, "$", lo, ", Y");
            6
        },
    }
}

/// Appends spaces from `width` up to the operand width.
fn pad_text(text: &mut String, width: usize)
    requires
        width <= OPERAND_WIDTH,
    ensures
        final(text)@ == old(text)@ + Seq::new((OPERAND_WIDTH - width) as nat, |i: int| ' '),
{
    let ghost before = text@;
    let mut k = width;
    while k < OPERAND_WIDTH
        invariant
            width <= k <= OPERAND_WIDTH,
            text@ == before + Seq::new((k - width) as nat, |i: int| ' '),
        decreases OPERAND_WIDTH - k,
    {
        proof {
            reveal_strlit(" ");
        }
        text.append(" ");
        k = k + 1;
        assert(text@ =~= before + Seq::new((k - width) as nat, |i: int| ' '));
    }
}

/// The line of instruction `op` in mode `mode` at `pc`, with operand bytes
/// `lo` and `hi`.
#[verifier::spinoff_prover]
#[verifier::rlimit(100)]
fn format_line(pc: u16, op: Op, mode: AddressingMode, lo: u8, hi: u8) -> (text: String)
    ensures
        text@ == hex4(pc) + seq![':', ' '] + op_name(op)@ + seq![' '] + pad(
            operand_text(mode, lo, hi, inc16(inc16(pc))),
        ),
{
    let after_byte = pc.wrapping_add(1).wrapping_add(1);
    let mut text = String::new();
    push_hex4(&mut text, pc);
    proof {
        reveal_strlit(": ");
        reveal_strlit(" ");
    }
    text.append(": ");
    text.append(mnemonic(op));
    text.append(" ");
    let width = push_operand(&mut text, mode, lo, hi, after_byte);

    // Pad the operand with enough spaces to make all lines have the same
    // length.
    pad_text(&mut text, width);
    text
}

/// Disassembles the instruction at `pc`, returning its line and the address
/// of the next instruction.
fn disassemble_line(bus: &DuNesBus, pc: u16) -> (r: (String, u16))
    requires
        operand_fits(*bus, pc),
    ensures
        r.0@ == line(*bus, pc),
        r.1 == next_instruction(*bus, pc),
{
    // Only disassemble RAM and PRG RAM/ROM.
    let opcode = if pc <= 0x1fff || 0x4020 <= pc {
        bus.peek(pc)
    } else {
        0
    };
    let operand_address = pc.wrapping_add(1);
    let (op, mode) = decode(opcode);
    let lo = bus.peek(operand_address);
    let hi = bus.peek(operand_address.wrapping_add(1));
    let text = format_line(pc, op, mode, lo, hi);
    let next = pc.wrapping_add(1 + operand_bytes(mode));
    (text, next)
}

impl Cpu<DuNesBus> {
    /// Disassembles the instructions from the program counter on.
    pub fn disassemble(&self) -> (lines: Vec<String>)
        requires
            forall|i: nat|
                i < DISASSEMBLY_INSTRUCTIONS ==> operand_fits(
                    self.bus,
                    #[trigger] instruction_address(self.bus, self.pc, i),
                ),
        ensures
            lines@.len() == DISASSEMBLY_INSTRUCTIONS,
            forall|i: int|
                0 <= i < DISASSEMBLY_INSTRUCTIONS ==> lines@[i]@ == line(
                    self.bus,
                    instruction_address(self.bus, self.pc, i as nat),
                ),
    {
        let mut pc = self.pc;
        let mut disasm: Vec<String> = Vec::new();
        let mut k: usize = 0;
        while k < DISASSEMBLY_INSTRUCTIONS
            invariant
                k <= DISASSEMBLY_INSTRUCTIONS,
                disasm@.len() == k,
                pc == instruction_address(self.bus, self.pc, k as nat),
                forall|i: nat|
                    i < DISASSEMBLY_INSTRUCTIONS ==> operand_fits(
                        self.bus,
                        #[trigger] instruction_address(self.bus, self.pc, i),
                    ),
                forall|i: int|
                    0 <= i < k ==> disasm@[i]@ == line(
                        self.bus,
                        instruction_address(self.bus, self.pc, i as nat),
                    ),
            decreases DISASSEMBLY_INSTRUCTIONS - k,
        {
            let (text, next) = disassemble_line(&self.bus, pc);
            disasm.push(text);
            pc = next;
            k = k + 1;
        }
        disasm
    }
}

} // verus!
