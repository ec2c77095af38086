//! Decoding opcodes into instructions and addressing modes.
use vstd::prelude::*;

use super::instr::valid_mode;
use super::mode::AddressingMode;
use super::semantics::{is_read_op, is_rmw_op, is_store_op, Op};
use super::trace::Variant;

verus! {

/// The instruction and addressing mode of each opcode. The addressing mode is
/// the one a disassembler shows: implied, accumulator and relative
/// instructions carry those modes.
#[verifier::opaque]
pub open spec fn decode_spec(opcode: u8) -> (Op, AddressingMode) {
    match opcode {
        0x00 => (Op::Brk, AddressingMode::Implied),
        0x01 => (Op::Ora, AddressingMode::IndexedIndirect),
        0x02 => (Op::Jam, AddressingMode::Implied),
        0x03 => (Op::Slo, AddressingMode::IndexedIndirect),
        0x04 => (Op::Nop, AddressingMode::ZeroPage),
        0x05 => (Op::Ora, AddressingMode::ZeroPage),
        0x06 => (Op::Asl, AddressingMode::ZeroPage),
        0x07 => (Op::Slo, AddressingMode::ZeroPage),
        0x08 => (Op::Php, AddressingMode::Implied),
        0x09 => (Op::Ora, AddressingMode::Immediate),
        0x0a => (Op::AslA, AddressingMode::Accumulator),
        0x0b => (Op::Anc, AddressingMode::Immediate),
        0x0c => (Op::Nop, AddressingMode::Absolute),
        0x0d => (Op::Ora, AddressingMode::Absolute),
        0x0e => (Op::Asl, AddressingMode::Absolute),
        0x0f => (Op::Slo, AddressingMode::Absolute),
        0x10 => (Op::Bpl, AddressingMode::Relative),
        0x11 => (Op::Ora, AddressingMode::IndirectIndexed),
        0x12 => (Op::Jam, AddressingMode::Implied),
        0x13 => (Op::Slo, AddressingMode::IndirectIndexed),
        0x14 => (Op::Nop, AddressingMode::ZeroPageX),
        0x15 => (Op::Ora, AddressingMode::ZeroPageX),
        0x16 => (Op::Asl, AddressingMode::ZeroPageX),
        0x17 => (Op::Slo, AddressingMode::ZeroPageX),
        0x18 => (Op::Clc, AddressingMode::Implied),
        0x19 => (Op::Ora, AddressingMode::AbsoluteY),
        0x1a => (Op::NopImplied, AddressingMode::Implied),
        0x1b => (Op::Slo, AddressingMode::AbsoluteY),
        0x1c => (Op::Nop, AddressingMode::AbsoluteX),
        0x1d => (Op::Ora, AddressingMode::AbsoluteX),
        0x1e => (Op::Asl, AddressingMode::AbsoluteX),
        0x1f => (Op::Slo, AddressingMode::AbsoluteX),
        0x20 => (Op::Jsr, AddressingMode::Absolute),
        0x21 => (Op::And, AddressingMode::IndexedIndirect),
        0x22 => (Op::Jam, AddressingMode::Implied),
        0x23 => (Op::Rla, AddressingMode::IndexedIndirect),
        0x24 => (Op::Bit, AddressingMode::ZeroPage),
        0x25 => (Op::And, AddressingMode::ZeroPage),
        0x26 => (Op::Rol, AddressingMode::ZeroPage),
        0x27 => (Op::Rla, AddressingMode::ZeroPage),
        0x28 => (Op::Plp, AddressingMode::Implied),
        0x29 => (Op::And, AddressingMode::Immediate),
        0x2a => (Op::RolA, AddressingMode::Accumulator),
        0x2b => (Op::Anc, AddressingMode::Immediate),
        0x2c => (Op::Bit, AddressingMode::Absolute),
        0x2d => (Op::And, AddressingMode::Absolute),
        0x2e => (Op::Rol, AddressingMode::Absolute),
        0x2f => (Op::Rla, AddressingMode::Absolute),
        0x30 => (Op::Bmi, AddressingMode::Relative),
        0x31 => (Op::And, AddressingMode::IndirectIndexed),
        0x32 => (Op::Jam, AddressingMode::Implied),
        0x33 => (Op::Rla, AddressingMode::IndirectIndexed),
        0x34 => (Op::Nop, AddressingMode::ZeroPageX),
        0x35 => (Op::And, AddressingMode::ZeroPageX),
        0x36 => (Op::Rol, AddressingMode::ZeroPageX),
        0x37 => (Op::Rla, AddressingMode::ZeroPageX),
        0x38 => (Op::Sec, AddressingMode::Implied),
        0x39 => (Op::And, AddressingMode::AbsoluteY),
        0x3a => (Op::NopImplied, AddressingMode::Implied),
        0x3b => (Op::Rla, AddressingMode::AbsoluteY),
        0x3c => (Op::Nop, AddressingMode::AbsoluteX),
        0x3d => (Op::And, AddressingMode::AbsoluteX),
        0x3e => (Op::Rol, AddressingMode::AbsoluteX),
        0x3f => (Op::Rla, AddressingMode::AbsoluteX),
        0x40 => (Op::Rti, AddressingMode::Implied),
        0x41 => (Op::Eor, AddressingMode::IndexedIndirect),
        0x42 => (Op::Jam, AddressingMode::Implied),
        0x43 => (Op::Sre, AddressingMode::IndexedIndirect),
        0x44 => (Op::Nop, AddressingMode::ZeroPage),
        0x45 => (Op::Eor, AddressingMode::ZeroPage),
        0x46 => (Op::Lsr, AddressingMode::ZeroPage),
        0x47 => (Op::Sre, AddressingMode::ZeroPage),
        0x48 => (Op::Pha, AddressingMode::Implied),
        0x49 => (Op::Eor, AddressingMode::Immediate),
        0x4a => (Op::LsrA, AddressingMode::Accumulator),
        0x4b => (Op::Alr, AddressingMode::Immediate),
        0x4c => (Op::Jmp, AddressingMode::Absolute),
        0x4d => (Op::Eor, AddressingMode::Absolute),
        0x4e => (Op::Lsr, AddressingMode::Absolute),
        0x4f => (Op::Sre, AddressingMode::Absolute),
        0x50 => (Op::Bvc, AddressingMode::Relative),
        0x51 => (Op::Eor, AddressingMode::IndirectIndexed),
        0x52 => (Op::Jam, AddressingMode::Implied),
        0x53 => (Op::Sre, AddressingMode::IndirectIndexed),
        0x54 => (Op::Nop, AddressingMode::ZeroPageX),
        0x55 => (Op::Eor, AddressingMode::ZeroPageX),
        0x56 => (Op::Lsr, AddressingMode::ZeroPageX),
        0x57 => (Op::Sre, AddressingMode::ZeroPageX),
        0x58 => (Op::Cli, AddressingMode::Implied),
        0x59 => (Op::Eor, AddressingMode::AbsoluteY),
        0x5a => (Op::NopImplied, AddressingMode::Implied),
        0x5b => (Op::Sre, AddressingMode::AbsoluteY),
        0x5c => (Op::Nop, AddressingMode::AbsoluteX),
        0x5d => (Op::Eor, AddressingMode::AbsoluteX),
        0x5e => (Op::Lsr, AddressingMode::AbsoluteX),
        0x5f => (Op::Sre, AddressingMode::AbsoluteX),
        0x60 => (Op::Rts, AddressingMode::Implied),
        0x61 => (Op::Adc, AddressingMode::IndexedIndirect),
        0x62 => (Op::Jam, AddressingMode::Implied),
        0x63 => (Op::Rra, AddressingMode::IndexedIndirect),
        0x64 => (Op::Nop, AddressingMode::ZeroPage),
        0x65 => (Op::Adc, AddressingMode::ZeroPage),
        0x66 => (Op::Ror, AddressingMode::ZeroPage),
        0x67 => (Op::Rra, AddressingMode::ZeroPage),
        0x68 => (Op::Pla, AddressingMode::Implied),
        0x69 => (Op::Adc, AddressingMode::Immediate),
        0x6a => (Op::RorA, AddressingMode::Accumulator),
        0x6b => (Op::Arr, AddressingMode::Immediate),
        0x6c => (Op::Jmp, AddressingMode::Indirect),
        0x6d => (Op::Adc, AddressingMode::Absolute),
        0x6e => (Op::Ror, AddressingMode::Absolute),
        0x6f => (Op::Rra, AddressingMode::Absolute),
        0x70 => (Op::Bvs, AddressingMode::Relative),
        0x71 => (Op::Adc, AddressingMode::IndirectIndexed),
        0x72 => (Op::Jam, AddressingMode::Implied),
        0x73 => (Op::Rra, AddressingMode::IndirectIndexed),
        0x74 => (Op::Nop, AddressingMode::ZeroPageX),
        0x75 => (Op::Adc, AddressingMode::ZeroPageX),
        0x76 => (Op::Ror, AddressingMode::ZeroPageX),
        0x77 => (Op::Rra, AddressingMode::ZeroPageX),
        0x78 => (Op::Sei, AddressingMode::Implied),
        0x79 => (Op::Adc, AddressingMode::AbsoluteY),
        0x7a => (Op::NopImplied, AddressingMode::Implied),
        0x7b => (Op::Rra, AddressingMode::AbsoluteY),
        0x7c => (Op::Nop, AddressingMode::AbsoluteX),
        0x7d => (Op::Adc, AddressingMode::AbsoluteX),
        0x7e => (Op::Ror, AddressingMode::AbsoluteX),
        0x7f => (Op::Rra, AddressingMode::AbsoluteX),
        0x80 => (Op::Nop, AddressingMode::Immediate),
        0x81 => (Op::Sta, AddressingMode::IndexedIndirect),
        0x82 => (Op::Nop, AddressingMode::Immediate),
        0x83 => (Op::Sax, AddressingMode::IndexedIndirect),
        0x84 => (Op::Sty, AddressingMode::ZeroPage),
        0x85 => (Op::Sta, AddressingMode::ZeroPage),
        0x86 => (Op::Stx, AddressingMode::ZeroPage),
        0x87 => (Op::Sax, AddressingMode::ZeroPage),
        0x88 => (Op::Dey, AddressingMode::Implied),
        0x89 => (Op::Nop, AddressingMode::Immediate),
        0x8a => (Op::Txa, AddressingMode::Implied),
        0x8b => (Op::Ane, AddressingMode::Immediate),
        0x8c => (Op::Sty, AddressingMode::Absolute),
        0x8d => (Op::Sta, AddressingMode::Absolute),
        0x8e => (Op::Stx, AddressingMode::Absolute),
        0x8f => (Op::Sax, AddressingMode::Absolute),
        0x90 => (Op::Bcc, AddressingMode::Relative),
        0x91 => (Op::Sta, AddressingMode::IndirectIndexed),
        0x92 => (Op::Jam, AddressingMode::Implied),
        0x93 => (Op::Sha, AddressingMode::AbsoluteY),
        0x94 => (Op::Sty, AddressingMode::ZeroPageX),
        0x95 => (Op::Sta, AddressingMode::ZeroPageX),
        0x96 => (Op::Stx, AddressingMode::ZeroPageY),
        0x97 => (Op::Sax, AddressingMode::ZeroPageY),
        0x98 => (Op::Tya, AddressingMode::Implied),
        0x99 => (Op::Sta, AddressingMode::AbsoluteY),
        0x9a => (Op::Txs, AddressingMode::Implied),
        0x9b => (Op::Tas, AddressingMode::AbsoluteY),
        0x9c => (Op::Shy, AddressingMode::AbsoluteX),
        0x9d => (Op::Sta, AddressingMode::AbsoluteX),
        0x9e => (Op::Shx, AddressingMode::AbsoluteY),
        0x9f => (Op::Sha, AddressingMode::IndirectIndexed),
        0xa0 => (Op::Ldy, AddressingMode::Immediate),
        0xa1 => (Op::Lda, AddressingMode::IndexedIndirect),
        0xa2 => (Op::Ldx, AddressingMode::Immediate),
        0xa3 => (Op::Lax, AddressingMode::IndexedIndirect),
        0xa4 => (Op::Ldy, AddressingMode::ZeroPage),
        0xa5 => (Op::Lda, AddressingMode::ZeroPage),
        0xa6 => (Op::Ldx, AddressingMode::ZeroPage),
        0xa7 => (Op::Lax, AddressingMode::ZeroPage),
        0xa8 => (Op::Tay, AddressingMode::Implied),
        0xa9 => (Op::Lda, AddressingMode::Immediate),
        0xaa => (Op::Tax, AddressingMode::Implied),
        0xab => (Op::Lxa, AddressingMode::Immediate),
        0xac => (Op::Ldy, AddressingMode::Absolute),
        0xad => (Op::Lda, AddressingMode::Absolute),
        0xae => (Op::Ldx, AddressingMode::Absolute),
        0xaf => (Op::Lax, AddressingMode::Absolute),
        0xb0 => (Op::Bcs, AddressingMode::Relative),
        0xb1 => (Op::Lda, AddressingMode::IndirectIndexed),
        0xb2 => (Op::Jam, AddressingMode::Implied),
        0xb3 => (Op::Lax, AddressingMode::IndirectIndexed),
        0xb4 => (Op::Ldy, AddressingMode::ZeroPageX),
        0xb5 => (Op::Lda, AddressingMode::ZeroPageX),
        0xb6 => (Op::Ldx, AddressingMode::ZeroPageY),
        0xb7 => (Op::Lax, AddressingMode::ZeroPageY),
        0xb8 => (Op::Clv, AddressingMode::Implied),
        0xb9 => (Op::Lda, AddressingMode::AbsoluteY),
        0xba => (Op::Tsx, AddressingMode::Implied),
        0xbb => (Op::Las, AddressingMode::AbsoluteY),
        0xbc => (Op::Ldy, AddressingMode::AbsoluteX),
        0xbd => (Op::Lda, AddressingMode::AbsoluteX),
        0xbe => (Op::Ldx, AddressingMode::AbsoluteY),
        0xbf => (Op::Lax, AddressingMode::AbsoluteY),
        0xc0 => (Op::Cpy, AddressingMode::Immediate),
        0xc1 => (Op::Cmp, AddressingMode::IndexedIndirect),
        0xc2 => (Op::Nop, AddressingMode::Immediate),
        0xc3 => (Op::Dcp, AddressingMode::IndexedIndirect),
        0xc4 => (Op::Cpy, AddressingMode::ZeroPage),
        0xc5 => (Op::Cmp, AddressingMode::ZeroPage),
        0xc6 => (Op::Dec, AddressingMode::ZeroPage),
        0xc7 => (Op::Dcp, AddressingMode::ZeroPage),
        0xc8 => (Op::Iny, AddressingMode::Implied),
        0xc9 => (Op::Cmp, AddressingMode::Immediate),
        0xca => (Op::Dex, AddressingMode::Implied),
        0xcb => (Op::Sbx, AddressingMode::Immediate),
        0xcc => (Op::Cpy, AddressingMode::Absolute),
        0xcd => (Op::Cmp, AddressingMode::Absolute),
        0xce => (Op::Dec, AddressingMode::Absolute),
        0xcf => (Op::Dcp, AddressingMode::Absolute),
        0xd0 => (Op::Bne, AddressingMode::Relative),
        0xd1 => (Op::Cmp, AddressingMode::IndirectIndexed),
        0xd2 => (Op::Jam, AddressingMode::Implied),
        0xd3 => (Op::Dcp, AddressingMode::IndirectIndexed),
        0xd4 => (Op::Nop, AddressingMode::ZeroPageX),
        0xd5 => (Op::Cmp, AddressingMode::ZeroPageX),
        0xd6 => (Op::Dec, AddressingMode::ZeroPageX),
        0xd7 => (Op::Dcp, AddressingMode::ZeroPageX),
        0xd8 => (Op::Cld, AddressingMode::Implied),
        0xd9 => (Op::Cmp, AddressingMode::AbsoluteY),
        0xda => (Op::NopImplied, AddressingMode::Implied),
        0xdb => (Op::Dcp, AddressingMode::AbsoluteY),
        0xdc => (Op::Nop, AddressingMode::AbsoluteX),
        0xdd => (Op::Cmp, AddressingMode::AbsoluteX),
        0xde => (Op::Dec, AddressingMode::AbsoluteX),
        0xdf => (Op::Dcp, AddressingMode::AbsoluteX),
        0xe0 => (Op::Cpx, AddressingMode::Immediate),
        0xe1 => (Op::Sbc, AddressingMode::IndexedIndirect),
        0xe2 => (Op::Nop, AddressingMode::Immediate),
        0xe3 => (Op::Isb, AddressingMode::IndexedIndirect),
        0xe4 => (Op::Cpx, AddressingMode::ZeroPage),
        0xe5 => (Op::Sbc, AddressingMode::ZeroPage),
        0xe6 => (Op::Inc, AddressingMode::ZeroPage),
        0xe7 => (Op::Isb, AddressingMode::ZeroPage),
        0xe8 => (Op::Inx, AddressingMode::Implied),
        0xe9 => (Op::Sbc, AddressingMode::Immediate),
        0xea => (Op::NopImplied, AddressingMode::Implied),
        0xeb => (Op::Sbc, AddressingMode::Immediate),
        0xec => (Op::Cpx, AddressingMode::Absolute),
        0xed => (Op::Sbc, AddressingMode::Absolute),
        0xee => (Op::Inc, AddressingMode::Absolute),
        0xef => (Op::Isb, AddressingMode::Absolute),
        0xf0 => (Op::Beq, AddressingMode::Relative),
        0xf1 => (Op::Sbc, AddressingMode::IndirectIndexed),
        0xf2 => (Op::Jam, AddressingMode::Implied),
        0xf3 => (Op::Isb, AddressingMode::IndirectIndexed),
        0xf4 => (Op::Nop, AddressingMode::ZeroPageX),
        0xf5 => (Op::Sbc, AddressingMode::ZeroPageX),
        0xf6 => (Op::Inc, AddressingMode::ZeroPageX),
        0xf7 => (Op::Isb, AddressingMode::ZeroPageX),
        0xf8 => (Op::Sed, AddressingMode::Implied),
        0xf9 => (Op::Sbc, AddressingMode::AbsoluteY),
        0xfa => (Op::NopImplied, AddressingMode::Implied),
        0xfb => (Op::Isb, AddressingMode::AbsoluteY),
        0xfc => (Op::Nop, AddressingMode::AbsoluteX),
        0xfd => (Op::Sbc, AddressingMode::AbsoluteX),
        0xfe => (Op::Inc, AddressingMode::AbsoluteX),
        0xff => (Op::Isb, AddressingMode::AbsoluteX),
    }
}

/// The instruction and addressing mode of `opcode` in the variant `v`: the
/// emulator's takes 0x93 as SHA (indirect),Y and 0x9F as SHA absolute,Y.
pub open spec fn decode_for(v: Variant, opcode: u8) -> (Op, AddressingMode) {
    match v {
        Variant::Debugger => decode_spec(opcode),
        Variant::Emulator => if opcode == 0x93 {
            (Op::Sha, AddressingMode::IndirectIndexed)
        } else if opcode == 0x9f {
            (Op::Sha, AddressingMode::AbsoluteY)
        } else {
            decode_spec(opcode)
        },
    }
}

/// Every opcode decodes to an instruction in one of its addressing modes.
pub proof fn lemma_decode_valid(v: Variant, opcode: u8)
    ensures
        valid_mode(decode_for(v, opcode).0, decode_for(v, opcode).1),
{
    reveal(decode_spec);
}

/// Decodes `opcode` in the variant `v`.
pub fn decode_variant(v: Variant, opcode: u8) -> (r: (Op, AddressingMode))
    ensures
        r == decode_for(v, opcode),
        valid_mode(r.0, r.1),
{
    match v {
        Variant::Emulator => if opcode == 0x93 {
            (Op::Sha, AddressingMode::IndirectIndexed)
        } else if opcode == 0x9f {
            (Op::Sha, AddressingMode::AbsoluteY)
        } else {
            decode(opcode)
        },
        Variant::Debugger => decode(opcode),
    }
}

/// Decodes an opcode.
pub fn decode(opcode: u8) -> (r: (Op, AddressingMode))
    ensures
        r == decode_spec(opcode),
        valid_mode(r.0, r.1),
{
    proof {
        reveal(decode_spec);
    }
    match opcode {
        0x00 => (Op::Brk, AddressingMode::Implied),
        0x01 => (Op::Ora, AddressingMode::IndexedIndirect),
        0x02 => (Op::Jam, AddressingMode::Implied),
        0x03 => (Op::Slo, AddressingMode::IndexedIndirect),
        0x04 => (Op::Nop, AddressingMode::ZeroPage),
        0x05 => (Op::Ora, AddressingMode::ZeroPage),
        0x06 => (Op::Asl, AddressingMode::ZeroPage),
        0x07 => (Op::Slo, AddressingMode::ZeroPage),
        0x08 => (Op::Php, AddressingMode::Implied),
        0x09 => (Op::Ora, AddressingMode::Immediate),
        0x0a => (Op::AslA, AddressingMode::Accumulator),
        0x0b => (Op::Anc, AddressingMode::Immediate),
        0x0c => (Op::Nop, AddressingMode::Absolute),
        0x0d => (Op::Ora, AddressingMode::Absolute),
        0x0e => (Op::Asl, AddressingMode::Absolute),
        0x0f => (Op::Slo, AddressingMode::Absolute),
        0x10 => (Op::Bpl, AddressingMode::Relative),
        0x11 => (Op::Ora, AddressingMode::IndirectIndexed),
        0x12 => (Op::Jam, AddressingMode::Implied),
        0x13 => (Op::Slo, AddressingMode::IndirectIndexed),
        0x14 => (Op::Nop, AddressingMode::ZeroPageX),
        0x15 => (Op::Ora, AddressingMode::ZeroPageX),
        0x16 => (Op::Asl, AddressingMode::ZeroPageX),
        0x17 => (Op::Slo, AddressingMode::ZeroPageX),
        0x18 => (Op::Clc, AddressingMode::Implied),
        0x19 => (Op::Ora, AddressingMode::AbsoluteY),
        0x1a => (Op::NopImplied, AddressingMode::Implied),
        0x1b => (Op::Slo, AddressingMode::AbsoluteY),
        0x1c => (Op::Nop, AddressingMode::AbsoluteX),
        0x1d => (Op::Ora, AddressingMode::AbsoluteX),
        0x1e => (Op::Asl, AddressingMode::AbsoluteX),
        0x1f => (Op::Slo, AddressingMode::AbsoluteX),
        0x20 => (Op::Jsr, AddressingMode::Absolute),
        0x21 => (Op::And, AddressingMode::IndexedIndirect),
        0x22 => (Op::Jam, AddressingMode::Implied),
        0x23 => (Op::Rla, AddressingMode::IndexedIndirect),
        0x24 => (Op::Bit, AddressingMode::ZeroPage),
        0x25 => (Op::And, AddressingMode::ZeroPage),
        0x26 => (Op::Rol, AddressingMode::ZeroPage),
        0x27 => (Op::Rla, AddressingMode::ZeroPage),
        0x28 => (Op::Plp, AddressingMode::Implied),
        0x29 => (Op::And, AddressingMode::Immediate),
        0x2a => (Op::RolA, AddressingMode::Accumulator),
        0x2b => (Op::Anc, AddressingMode::Immediate),
        0x2c => (Op::Bit, AddressingMode::Absolute),
        0x2d => (Op::And, AddressingMode::Absolute),
        0x2e => (Op::Rol, AddressingMode::Absolute),
        0x2f => (Op::Rla, AddressingMode::Absolute),
        0x30 => (Op::Bmi, AddressingMode::Relative),
        0x31 => (Op::And, AddressingMode::IndirectIndexed),
        0x32 => (Op::Jam, AddressingMode::Implied),
        0x33 => (Op::Rla, AddressingMode::IndirectIndexed),
        0x34 => (Op::Nop, AddressingMode::ZeroPageX),
        0x35 => (Op::And, AddressingMode::ZeroPageX),
        0x36 => (Op::Rol, AddressingMode::ZeroPageX),
        0x37 => (Op::Rla, AddressingMode::ZeroPageX),
        0x38 => (Op::Sec, AddressingMode::Implied),
        0x39 => (Op::And, AddressingMode::AbsoluteY),
        0x3a => (Op::NopImplied, AddressingMode::Implied),
        0x3b => (Op::Rla, AddressingMode::AbsoluteY),
        0x3c => (Op::Nop, AddressingMode::AbsoluteX),
        0x3d => (Op::And, AddressingMode::AbsoluteX),
        0x3e => (Op::Rol, AddressingMode::AbsoluteX),
        0x3f => (Op::Rla, AddressingMode::AbsoluteX),
        0x40 => (Op::Rti, AddressingMode::Implied),
        0x41 => (Op::Eor, AddressingMode::IndexedIndirect),
        0x42 => (Op::Jam, AddressingMode::Implied),
        0x43 => (Op::Sre, AddressingMode::IndexedIndirect),
        0x44 => (Op::Nop, AddressingMode::ZeroPage),
        0x45 => (Op::Eor, AddressingMode::ZeroPage),
        0x46 => (Op::Lsr, AddressingMode::ZeroPage),
        0x47 => (Op::Sre, AddressingMode::ZeroPage),
        0x48 => (Op::Pha, AddressingMode::Implied),
        0x49 => (Op::Eor, AddressingMode::Immediate),
        0x4a => (Op::LsrA, AddressingMode::Accumulator),
        0x4b => (Op::Alr, AddressingMode::Immediate),
        0x4c => (Op::Jmp, AddressingMode::Absolute),
        0x4d => (Op::Eor, AddressingMode::Absolute),
        0x4e => (Op::Lsr, AddressingMode::Absolute),
        0x4f => (Op::Sre, AddressingMode::Absolute),
        0x50 => (Op::Bvc, AddressingMode::Relative),
        0x51 => (Op::Eor, AddressingMode::IndirectIndexed),
        0x52 => (Op::Jam, AddressingMode::Implied),
        0x53 => (Op::Sre, AddressingMode::IndirectIndexed),
        0x54 => (Op::Nop, AddressingMode::ZeroPageX),
        0x55 => (Op::Eor, AddressingMode::ZeroPageX),
        0x56 => (Op::Lsr, AddressingMode::ZeroPageX),
        0x57 => (Op::Sre, AddressingMode::ZeroPageX),
        0x58 => (Op::Cli, AddressingMode::Implied),
        0x59 => (Op::Eor, AddressingMode::AbsoluteY),
        0x5a => (Op::NopImplied, AddressingMode::Implied),
        0x5b => (Op::Sre, AddressingMode::AbsoluteY),
        0x5c => (Op::Nop, AddressingMode::AbsoluteX),
        0x5d => (Op::Eor, AddressingMode::AbsoluteX),
        0x5e => (Op::Lsr, AddressingMode::AbsoluteX),
        0x5f => (Op::Sre, AddressingMode::AbsoluteX),
        0x60 => (Op::Rts, AddressingMode::Implied),
        0x61 => (Op::Adc, AddressingMode::IndexedIndirect),
        0x62 => (Op::Jam, AddressingMode::Implied),
        0x63 => (Op::Rra, AddressingMode::IndexedIndirect),
        0x64 => (Op::Nop, AddressingMode::ZeroPage),
        0x65 => (Op::Adc, AddressingMode::ZeroPage),
        0x66 => (Op::Ror, AddressingMode::ZeroPage),
        0x67 => (Op::Rra, AddressingMode::ZeroPage),
        0x68 => (Op::Pla, AddressingMode::Implied),
        0x69 => (Op::Adc, AddressingMode::Immediate),
        0x6a => (Op::RorA, AddressingMode::Accumulator),
        0x6b => (Op::Arr, AddressingMode::Immediate),
        0x6c => (Op::Jmp, AddressingMode::Indirect),
        0x6d => (Op::Adc, AddressingMode::Absolute),
        0x6e => (Op::Ror, AddressingMode::Absolute),
        0x6f => (Op::Rra, AddressingMode::Absolute),
        0x70 => (Op::Bvs, AddressingMode::Relative),
        0x71 => (Op::Adc, AddressingMode::IndirectIndexed),
        0x72 => (Op::Jam, AddressingMode::Implied),
        0x73 => (Op::Rra, AddressingMode::IndirectIndexed),
        0x74 => (Op::Nop, AddressingMode::ZeroPageX),
        0x75 => (Op::Adc, AddressingMode::ZeroPageX),
        0x76 => (Op::Ror, AddressingMode::ZeroPageX),
        0x77 => (Op::Rra, AddressingMode::ZeroPageX),
        0x78 => (Op::Sei, AddressingMode::Implied),
        0x79 => (Op::Adc, AddressingMode::AbsoluteY),
        0x7a => (Op::NopImplied, AddressingMode::Implied),
        0x7b => (Op::Rra, AddressingMode::AbsoluteY),
        0x7c => (Op::Nop, AddressingMode::AbsoluteX),
        0x7d => (Op::Adc, AddressingMode::AbsoluteX),
        0x7e => (Op::Ror, AddressingMode::AbsoluteX),
        0x7f => (Op::Rra, AddressingMode::AbsoluteX),
        0x80 => (Op::Nop, AddressingMode::Immediate),
        0x81 => (Op::Sta, AddressingMode::IndexedIndirect),
        0x82 => (Op::Nop, AddressingMode::Immediate),
        0x83 => (Op::Sax, AddressingMode::IndexedIndirect),
        0x84 => (Op::Sty, AddressingMode::ZeroPage),
        0x85 => (Op::Sta, AddressingMode::ZeroPage),
        0x86 => (Op::Stx, AddressingMode::ZeroPage),
        0x87 => (Op::Sax, AddressingMode::ZeroPage),
        0x88 => (Op::Dey, AddressingMode::Implied),
        0x89 => (Op::Nop, AddressingMode::Immediate),
        0x8a => (Op::Txa, AddressingMode::Implied),
        0x8b => (Op::Ane, AddressingMode::Immediate),
        0x8c => (Op::Sty, AddressingMode::Absolute),
        0x8d => (Op::Sta, AddressingMode::Absolute),
        0x8e => (Op::Stx, AddressingMode::Absolute),
        0x8f => (Op::Sax, AddressingMode::Absolute),
        0x90 => (Op::Bcc, AddressingMode::Relative),
        0x91 => (Op::Sta, AddressingMode::IndirectIndexed),
        0x92 => (Op::Jam, AddressingMode::Implied),
        0x93 => (Op::Sha, AddressingMode::AbsoluteY),
        0x94 => (Op::Sty, AddressingMode::ZeroPageX),
        0x95 => (Op::Sta, AddressingMode::ZeroPageX),
        0x96 => (Op::Stx, AddressingMode::ZeroPageY),
        0x97 => (Op::Sax, AddressingMode::ZeroPageY),
        0x98 => (Op::Tya, AddressingMode::Implied),
        0x99 => (Op::Sta, AddressingMode::AbsoluteY),
        0x9a => (Op::Txs, AddressingMode::Implied),
        0x9b => (Op::Tas, AddressingMode::AbsoluteY),
        0x9c => (Op::Shy, AddressingMode::AbsoluteX),
        0x9d => (Op::Sta, AddressingMode::AbsoluteX),
        0x9e => (Op::Shx, AddressingMode::AbsoluteY),
        0x9f => (Op::Sha, AddressingMode::IndirectIndexed),
        0xa0 => (Op::Ldy, AddressingMode::Immediate),
        0xa1 => (Op::Lda, AddressingMode::IndexedIndirect),
        0xa2 => (Op::Ldx, AddressingMode::Immediate),
        0xa3 => (Op::Lax, AddressingMode::IndexedIndirect),
        0xa4 => (Op::Ldy, AddressingMode::ZeroPage),
        0xa5 => (Op::Lda, AddressingMode::ZeroPage),
        0xa6 => (Op::Ldx, AddressingMode::ZeroPage),
        0xa7 => (Op::Lax, AddressingMode::ZeroPage),
        0xa8 => (Op::Tay, AddressingMode::Implied),
        0xa9 => (Op::Lda, AddressingMode::Immediate),
        0xaa => (Op::Tax, AddressingMode::Implied),
        0xab => (Op::Lxa, AddressingMode::Immediate),
        0xac => (Op::Ldy, AddressingMode::Absolute),
        0xad => (Op::Lda, AddressingMode::Absolute),
        0xae => (Op::Ldx, AddressingMode::Absolute),
        0xaf => (Op::Lax, AddressingMode::Absolute),
        0xb0 => (Op::Bcs, AddressingMode::Relative),
        0xb1 => (Op::Lda, AddressingMode::IndirectIndexed),
        0xb2 => (Op::Jam, AddressingMode::Implied),
        0xb3 => (Op::Lax, AddressingMode::IndirectIndexed),
        0xb4 => (Op::Ldy, AddressingMode::ZeroPageX),
        0xb5 => (Op::Lda, AddressingMode::ZeroPageX),
        0xb6 => (Op::Ldx, AddressingMode::ZeroPageY),
        0xb7 => (Op::Lax, AddressingMode::ZeroPageY),
        0xb8 => (Op::Clv, AddressingMode::Implied),
        0xb9 => (Op::Lda, AddressingMode::AbsoluteY),
        0xba => (Op::Tsx, AddressingMode::Implied),
        0xbb => (Op::Las, AddressingMode::AbsoluteY),
        0xbc => (Op::Ldy, AddressingMode::AbsoluteX),
        0xbd => (Op::Lda, AddressingMode::AbsoluteX),
        0xbe => (Op::Ldx, AddressingMode::AbsoluteY),
        0xbf => (Op::Lax, AddressingMode::AbsoluteY),
        0xc0 => (Op::Cpy, AddressingMode::Immediate),
        0xc1 => (Op::Cmp, AddressingMode::IndexedIndirect),
        0xc2 => (Op::Nop, AddressingMode::Immediate),
        0xc3 => (Op::Dcp, AddressingMode::IndexedIndirect),
        0xc4 => (Op::Cpy, AddressingMode::ZeroPage),
        0xc5 => (Op::Cmp, AddressingMode::ZeroPage),
        0xc6 => (Op::Dec, AddressingMode::ZeroPage),
        0xc7 => (Op::Dcp, AddressingMode::ZeroPage),
        0xc8 => (Op::Iny, AddressingMode::Implied),
        0xc9 => (Op::Cmp, AddressingMode::Immediate),
        0xca => (Op::Dex, AddressingMode::Implied),
        0xcb => (Op::Sbx, AddressingMode::Immediate),
        0xcc => (Op::Cpy, AddressingMode::Absolute),
        0xcd => (Op::Cmp, AddressingMode::Absolute),
        0xce => (Op::Dec, AddressingMode::Absolute),
        0xcf => (Op::Dcp, AddressingMode::Absolute),
        0xd0 => (Op::Bne, AddressingMode::Relative),
        0xd1 => (Op::Cmp, AddressingMode::IndirectIndexed),
        0xd2 => (Op::Jam, AddressingMode::Implied),
        0xd3 => (Op::Dcp, AddressingMode::IndirectIndexed),
        0xd4 => (Op::Nop, AddressingMode::ZeroPageX),
        0xd5 => (Op::Cmp, AddressingMode::ZeroPageX),
        0xd6 => (Op::Dec, AddressingMode::ZeroPageX),
        0xd7 => (Op::Dcp, AddressingMode::ZeroPageX),
        0xd8 => (Op::Cld, AddressingMode::Implied),
        0xd9 => (Op::Cmp, AddressingMode::AbsoluteY),
        0xda => (Op::NopImplied, AddressingMode::Implied),
        0xdb => (Op::Dcp, AddressingMode::AbsoluteY),
        0xdc => (Op::Nop, AddressingMode::AbsoluteX),
        0xdd => (Op::Cmp, AddressingMode::AbsoluteX),
        0xde => (Op::Dec, AddressingMode::AbsoluteX),
        0xdf => (Op::Dcp, AddressingMode::AbsoluteX),
        0xe0 => (Op::Cpx, AddressingMode::Immediate),
        0xe1 => (Op::Sbc, AddressingMode::IndexedIndirect),
        0xe2 => (Op::Nop, AddressingMode::Immediate),
        0xe3 => (Op::Isb, AddressingMode::IndexedIndirect),
        0xe4 => (Op::Cpx, AddressingMode::ZeroPage),
        0xe5 => (Op::Sbc, AddressingMode::ZeroPage),
        0xe6 => (Op::Inc, AddressingMode::ZeroPage),
        0xe7 => (Op::Isb, AddressingMode::ZeroPage),
        0xe8 => (Op::Inx, AddressingMode::Implied),
        0xe9 => (Op::Sbc, AddressingMode::Immediate),
        0xea => (Op::NopImplied, AddressingMode::Implied),
        0xeb => (Op::Sbc, AddressingMode::Immediate),
        0xec => (Op::Cpx, AddressingMode::Absolute),
        0xed => (Op::Sbc, AddressingMode::Absolute),
        0xee => (Op::Inc, AddressingMode::Absolute),
        0xef => (Op::Isb, AddressingMode::Absolute),
        0xf0 => (Op::Beq, AddressingMode::Relative),
        0xf1 => (Op::Sbc, AddressingMode::IndirectIndexed),
        0xf2 => (Op::Jam, AddressingMode::Implied),
        0xf3 => (Op::Isb, AddressingMode::IndirectIndexed),
        0xf4 => (Op::Nop, AddressingMode::ZeroPageX),
        0xf5 => (Op::Sbc, AddressingMode::ZeroPageX),
        0xf6 => (Op::Inc, AddressingMode::ZeroPageX),
        0xf7 => (Op::Isb, AddressingMode::ZeroPageX),
        0xf8 => (Op::Sed, AddressingMode::Implied),
        0xf9 => (Op::Sbc, AddressingMode::AbsoluteY),
        0xfa => (Op::NopImplied, AddressingMode::Implied),
        0xfb => (Op::Isb, AddressingMode::AbsoluteY),
        0xfc => (Op::Nop, AddressingMode::AbsoluteX),
        0xfd => (Op::Sbc, AddressingMode::AbsoluteX),
        0xfe => (Op::Inc, AddressingMode::AbsoluteX),
        0xff => (Op::Isb, AddressingMode::AbsoluteX),
    }
}

/// Whether `op` reads one operand through an addressing mode.
pub fn is_read(op: Op) -> (b: bool)
    ensures
        b == is_read_op(op),
{
    matches!(op, Op::Adc | Op::Alr | Op::Anc | Op::And | Op::Ane | Op::Arr | Op::Bit | Op::Cmp
        | Op::Cpx | Op::Cpy | Op::Eor | Op::Las | Op::Lax | Op::Lda | Op::Ldx | Op::Ldy | Op::Lxa
        | Op::Nop | Op::Ora | Op::Sbc | Op::Sbx)
}

/// Whether `op` reads, modifies and writes back one operand.
pub fn is_rmw(op: Op) -> (b: bool)
    ensures
        b == is_rmw_op(op),
{
    matches!(op, Op::Asl | Op::Lsr | Op::Rol | Op::Ror | Op::Inc | Op::Dec | Op::Slo | Op::Sre
        | Op::Rla | Op::Rra | Op::Dcp | Op::Isb)
}

/// Whether `op` writes one byte through an addressing mode.
pub fn is_store(op: Op) -> (b: bool)
    ensures
        b == is_store_op(op),
{
    matches!(op, Op::Sta | Op::Stx | Op::Sty | Op::Sax | Op::Sha | Op::Shx | Op::Shy | Op::Tas)
}

/// The assembler mnemonic of an instruction.
pub open spec fn op_name(op: Op) -> &'static str {
    match op {
        Op::Adc => "ADC",
        Op::Alr => "ALR",
        Op::Anc => "ANC",
        Op::And => "AND",
        Op::Ane => "ANE",
        Op::Arr => "ARR",
        Op::Asl => "ASL",
        Op::AslA => "ASL",
        Op::Bcc => "BCC",
        Op::Bcs => "BCS",
        Op::Beq => "BEQ",
        Op::Bit => "BIT",
        Op::Bmi => "BMI",
        Op::Bne => "BNE",
        Op::Bpl => "BPL",
        Op::Brk => "BRK",
        Op::Bvc => "BVC",
        Op::Bvs => "BVS",
        Op::Clc => "CLC",
        Op::Cld => "CLD",
        Op::Cli => "CLI",
        Op::Clv => "CLV",
        Op::Cmp => "CMP",
        Op::Cpx => "CPX",
        Op::Cpy => "CPY",
        Op::Dcp => "DCP",
        Op::Dec => "DEC",
        Op::Dex => "DEX",
        Op::Dey => "DEY",
        Op::Eor => "EOR",
        Op::Inc => "INC",
        Op::Inx => "INX",
        Op::Iny => "INY",
        Op::Isb => "ISB",
        Op::Jam => "JAM",
        Op::Jmp => "JMP",
        Op::Jsr => "JSR",
        Op::Las => "LAS",
        Op::Lax => "LAX",
        Op::Lda => "LDA",
        Op::Ldx => "LDX",
        Op::Ldy => "LDY",
        Op::Lsr => "LSR",
        Op::LsrA => "LSR",
        Op::Lxa => "LXA",
        Op::Nop => "NOP",
        Op::NopImplied => "NOP",
        Op::Ora => "ORA",
        Op::Pha => "PHA",
        Op::Php => "PHP",
        Op::Pla => "PLA",
        Op::Plp => "PLP",
        Op::Rla => "RLA",
        Op::Rol => "ROL",
        Op::RolA => "ROL",
        Op::Ror => "ROR",
        Op::RorA => "ROR",
        Op::Rra => "RRA",
        Op::Rti => "RTI",
        Op::Rts => "RTS",
        Op::Sax => "SAX",
        Op::Sbc => "SBC",
        Op::Sbx => "SBX",
        Op::Sec => "SEC",
        Op::Sed => "SED",
        Op::Sei => "SEI",
        Op::Sha => "SHA",
        Op::Shx => "SHX",
        Op::Shy => "SHY",
        Op::Slo => "SLO",
        Op::Sre => "SRE",
        Op::Sta => "STA",
        Op::Stx => "STX",
        Op::Sty => "STY",
        Op::Tas => "TAS",
        Op::Tax => "TAX",
        Op::Tay => "TAY",
        Op::Tsx => "TSX",
        Op::Txa => "TXA",
        Op::Txs => "TXS",
        Op::Tya => "TYA",
    }
}

/// The assembler mnemonic of an instruction.
pub fn mnemonic(op: Op) -> (name: &'static str)
    ensures
        name == op_name(op),
{
    match op {
        Op::Adc => "ADC",
        Op::Alr => "ALR",
        Op::Anc => "ANC",
        Op::And => "AND",
        Op::Ane => "ANE",
        Op::Arr => "ARR",
        Op::Asl => "ASL",
        Op::AslA => "ASL",
        Op::Bcc => "BCC",
        Op::Bcs => "BCS",
        Op::Beq => "BEQ",
        Op::Bit => "BIT",
        Op::Bmi => "BMI",
        Op::Bne => "BNE",
        Op::Bpl => "BPL",
        Op::Brk => "BRK",
        Op::Bvc => "BVC",
        Op::Bvs => "BVS",
        Op::Clc => "CLC",
        Op::Cld => "CLD",
        Op::Cli => "CLI",
        Op::Clv => "CLV",
        Op::Cmp => "CMP",
        Op::Cpx => "CPX",
        Op::Cpy => "CPY",
        Op::Dcp => "DCP",
        Op::Dec => "DEC",
        Op::Dex => "DEX",
        Op::Dey => "DEY",
        Op::Eor => "EOR",
        Op::Inc => "INC",
        Op::Inx => "INX",
        Op::Iny => "INY",
        Op::Isb => "ISB",
        Op::Jam => "JAM",
        Op::Jmp => "JMP",
        Op::Jsr => "JSR",
        Op::Las => "LAS",
        Op::Lax => "LAX",
        Op::Lda => "LDA",
        Op::Ldx => "LDX",
        Op::Ldy => "LDY",
        Op::Lsr => "LSR",
        Op::LsrA => "LSR",
        Op::Lxa => "LXA",
        Op::Nop => "NOP",
        Op::NopImplied => "NOP",
        Op::Ora => "ORA",
        Op::Pha => "PHA",
        Op::Php => "PHP",
        Op::Pla => "PLA",
        Op::Plp => "PLP",
        Op::Rla => "RLA",
        Op::Rol => "ROL",
        Op::RolA => "ROL",
        Op::Ror => "ROR",
        Op::RorA => "ROR",
        Op::Rra => "RRA",
        Op::Rti => "RTI",
        Op::Rts => "RTS",
        Op::Sax => "SAX",
        Op::Sbc => "SBC",
        Op::Sbx => "SBX",
        Op::Sec => "SEC",
        Op::Sed => "SED",
        Op::Sei => "SEI",
        Op::Sha => "SHA",
        Op::Shx => "SHX",
        Op::Shy => "SHY",
        Op::Slo => "SLO",
        Op::Sre => "SRE",
        Op::Sta => "STA",
        Op::Stx => "STX",
        Op::Sty => "STY",
        Op::Tas => "TAS",
        Op::Tax => "TAX",
        Op::Tay => "TAY",
        Op::Tsx => "TSX",
        Op::Txa => "TXA",
        Op::Txs => "TXS",
        Op::Tya => "TYA",
    }
}

} // verus!
