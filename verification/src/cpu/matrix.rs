//! The opcode matrix: the 6502's opcodes laid out by their bit fields
//! `aaabbbcc`. The group `cc` picks a family, the row `aaa` the operation
//! and the column `bbb` the addressing mode; the irregular opcodes are named
//! one by one. The laws here hold the decode table and the mnemonics to
//! that layout.
use vstd::prelude::*;

use super::decode::{decode_spec, op_name};
use super::mode::AddressingMode;
use super::semantics::Op;

verus! {

/// The row `aaa` of opcode `o`.
pub open spec fn row(o: u8) -> u8 {
    o / 32
}

/// The column `bbb` of opcode `o`.
pub open spec fn column(o: u8) -> u8 {
    (o / 4) % 8
}

/// The group `cc` of opcode `o`.
pub open spec fn group(o: u8) -> u8 {
    o % 4
}

/// The addressing mode of column `b` in the memory groups.
pub open spec fn column_mode(b: u8) -> AddressingMode {
    match b {
        0 => AddressingMode::IndexedIndirect,
        1 => AddressingMode::ZeroPage,
        2 => AddressingMode::Immediate,
        3 => AddressingMode::Absolute,
        4 => AddressingMode::IndirectIndexed,
        5 => AddressingMode::ZeroPageX,
        6 => AddressingMode::AbsoluteY,
        _ => AddressingMode::AbsoluteX,
    }
}

/// Rows 4 and 5 (the X register's stores and loads) index by Y where the
/// others index by X.
pub open spec fn row_mode(a: u8, m: AddressingMode) -> AddressingMode {
    if a == 4 || a == 5 {
        match m {
            AddressingMode::ZeroPageX => AddressingMode::ZeroPageY,
            AddressingMode::AbsoluteX => AddressingMode::AbsoluteY,
            _ => m,
        }
    } else {
        m
    }
}

/// The operations of group 1, by row.
pub open spec fn alu_row(a: u8) -> Op {
    match a {
        0 => Op::Ora,
        1 => Op::And,
        2 => Op::Eor,
        3 => Op::Adc,
        4 => Op::Sta,
        5 => Op::Lda,
        6 => Op::Cmp,
        _ => Op::Sbc,
    }
}

/// The read-modify-write, store and load operations of group 2, by row.
pub open spec fn rmw_row(a: u8) -> Op {
    match a {
        0 => Op::Asl,
        1 => Op::Rol,
        2 => Op::Lsr,
        3 => Op::Ror,
        4 => Op::Stx,
        5 => Op::Ldx,
        6 => Op::Dec,
        _ => Op::Inc,
    }
}

/// The combined operations of group 3, by row: each is the group 2
/// operation of its row followed by the group 1 one.
pub open spec fn combined_row(a: u8) -> Op {
    match a {
        0 => Op::Slo,
        1 => Op::Rla,
        2 => Op::Sre,
        3 => Op::Rra,
        4 => Op::Sax,
        5 => Op::Lax,
        6 => Op::Dcp,
        _ => Op::Isb,
    }
}

/// The branches, by row: rows 0-1 test N, 2-3 V, 4-5 C and 6-7 Z, the
/// even row on the flag clear and the odd row on it set.
pub open spec fn branch_row(a: u8) -> Op {
    match a {
        0 => Op::Bpl,
        1 => Op::Bmi,
        2 => Op::Bvc,
        3 => Op::Bvs,
        4 => Op::Bcc,
        5 => Op::Bcs,
        6 => Op::Bne,
        _ => Op::Beq,
    }
}

/// The instruction and addressing mode of opcode `o`, read off the matrix.
pub open spec fn matrix(o: u8) -> (Op, AddressingMode) {
    let a = row(o);
    let b = column(o);
    if group(o) == 1 {
        if o == 0x89 {
            (Op::Nop, AddressingMode::Immediate)
        } else {
            (alu_row(a), column_mode(b))
        }
    } else if group(o) == 3 {
        if b == 2 {
            (
                match a {
                    0 | 1 => Op::Anc,
                    2 => Op::Alr,
                    3 => Op::Arr,
                    4 => Op::Ane,
                    5 => Op::Lxa,
                    6 => Op::Sbx,
                    _ => Op::Sbc,
                },
                AddressingMode::Immediate,
            )
        } else if o == 0x93 {
            (Op::Sha, AddressingMode::AbsoluteY)
        } else if o == 0x9b {
            (Op::Tas, AddressingMode::AbsoluteY)
        } else if o == 0x9f {
            (Op::Sha, AddressingMode::IndirectIndexed)
        } else if o == 0xbb {
            (Op::Las, AddressingMode::AbsoluteY)
        } else {
            (combined_row(a), row_mode(a, column_mode(b)))
        }
    } else if group(o) == 2 {
        if b == 0 {
            if a < 4 {
                (Op::Jam, AddressingMode::Implied)
            } else if a == 5 {
                (Op::Ldx, AddressingMode::Immediate)
            } else {
                (Op::Nop, AddressingMode::Immediate)
            }
        } else if b == 2 {
            match a {
                0 => (Op::AslA, AddressingMode::Accumulator),
                1 => (Op::RolA, AddressingMode::Accumulator),
                2 => (Op::LsrA, AddressingMode::Accumulator),
                3 => (Op::RorA, AddressingMode::Accumulator),
                4 => (Op::Txa, AddressingMode::Implied),
                5 => (Op::Tax, AddressingMode::Implied),
                6 => (Op::Dex, AddressingMode::Implied),
                _ => (Op::NopImplied, AddressingMode::Implied),
            }
        } else if b == 4 {
            (Op::Jam, AddressingMode::Implied)
        } else if b == 6 {
            if a == 4 {
                (Op::Txs, AddressingMode::Implied)
            } else if a == 5 {
                (Op::Tsx, AddressingMode::Implied)
            } else {
                (Op::NopImplied, AddressingMode::Implied)
            }
        } else if o == 0x9e {
            (Op::Shx, AddressingMode::AbsoluteY)
        } else {
            (rmw_row(a), row_mode(a, column_mode(b)))
        }
    } else {
        if b == 4 {
            (branch_row(a), AddressingMode::Relative)
        } else if b == 6 {
            (
                match a {
                    0 => Op::Clc,
                    1 => Op::Sec,
                    2 => Op::Cli,
                    3 => Op::Sei,
                    4 => Op::Tya,
                    5 => Op::Clv,
                    6 => Op::Cld,
                    _ => Op::Sed,
                },
                AddressingMode::Implied,
            )
        } else if b == 2 {
            (
                match a {
                    0 => Op::Php,
                    1 => Op::Plp,
                    2 => Op::Pha,
                    3 => Op::Pla,
                    4 => Op::Dey,
                    5 => Op::Tay,
                    6 => Op::Iny,
                    _ => Op::Inx,
                },
                AddressingMode::Implied,
            )
        } else if b == 0 {
            match a {
                0 => (Op::Brk, AddressingMode::Implied),
                1 => (Op::Jsr, AddressingMode::Absolute),
                2 => (Op::Rti, AddressingMode::Implied),
                3 => (Op::Rts, AddressingMode::Implied),
                4 => (Op::Nop, AddressingMode::Immediate),
                5 => (Op::Ldy, AddressingMode::Immediate),
                6 => (Op::Cpy, AddressingMode::Immediate),
                _ => (Op::Cpx, AddressingMode::Immediate),
            }
        } else if b == 1 || b == 3 {
            let m = column_mode(b);
            match a {
                0 => (Op::Nop, m),
                1 => (Op::Bit, m),
                2 => if b == 1 {
                    (Op::Nop, m)
                } else {
                    (Op::Jmp, AddressingMode::Absolute)
                },
                3 => if b == 1 {
                    (Op::Nop, m)
                } else {
                    (Op::Jmp, AddressingMode::Indirect)
                },
                4 => (Op::Sty, m),
                5 => (Op::Ldy, m),
                6 => (Op::Cpy, m),
                _ => (Op::Cpx, m),
            }
        } else {
            if a == 4 {
                if b == 5 {
                    (Op::Sty, AddressingMode::ZeroPageX)
                } else {
                    (Op::Shy, AddressingMode::AbsoluteX)
                }
            } else if a == 5 {
                (Op::Ldy, column_mode(b))
            } else {
                (Op::Nop, column_mode(b))
            }
        }
    }
}

/// Every opcode decodes to the instruction and addressing mode that its
/// place in the matrix gives.
pub proof fn lemma_decode_matrix(o: u8)
    ensures
        decode_spec(o) == matrix(o),
{
    reveal(decode_spec);
}

/// The mnemonic of opcode `o`, read off the matrix.
pub open spec fn name_matrix(o: u8) -> &'static str {
    let a = row(o);
    let b = column(o);
    if group(o) == 1 {
        if o == 0x89 {
            "NOP"
        } else {
            match a {
                0 => "ORA",
                1 => "AND",
                2 => "EOR",
                3 => "ADC",
                4 => "STA",
                5 => "LDA",
                6 => "CMP",
                _ => "SBC",
            }
        }
    } else if group(o) == 3 {
        if b == 2 {
            match a {
                0 | 1 => "ANC",
                2 => "ALR",
                3 => "ARR",
                4 => "ANE",
                5 => "LXA",
                6 => "SBX",
                _ => "SBC",
            }
        } else if o == 0x93 || o == 0x9f {
            "SHA"
        } else if o == 0x9b {
            "TAS"
        } else if o == 0xbb {
            "LAS"
        } else {
            match a {
                0 => "SLO",
                1 => "RLA",
                2 => "SRE",
                3 => "RRA",
                4 => "SAX",
                5 => "LAX",
                6 => "DCP",
                _ => "ISB",
            }
        }
    } else if group(o) == 2 {
        if b == 0 {
            if a < 4 {
                "JAM"
            } else if a == 5 {
                "LDX"
            } else {
                "NOP"
            }
        } else if b == 2 {
            match a {
                0 => "ASL",
                1 => "ROL",
                2 => "LSR",
                3 => "ROR",
                4 => "TXA",
                5 => "TAX",
                6 => "DEX",
                _ => "NOP",
            }
        } else if b == 4 {
            "JAM"
        } else if b == 6 {
            if a == 4 {
                "TXS"
            } else if a == 5 {
                "TSX"
            } else {
                "NOP"
            }
        } else if o == 0x9e {
            "SHX"
        } else {
            match a {
                0 => "ASL",
                1 => "ROL",
                2 => "LSR",
                3 => "ROR",
                4 => "STX",
                5 => "LDX",
                6 => "DEC",
                _ => "INC",
            }
        }
    } else {
        if b == 4 {
            match a {
                0 => "BPL",
                1 => "BMI",
                2 => "BVC",
                3 => "BVS",
                4 => "BCC",
                5 => "BCS",
                6 => "BNE",
                _ => "BEQ",
            }
        } else if b == 6 {
            match a {
                0 => "CLC",
                1 => "SEC",
                2 => "CLI",
                3 => "SEI",
                4 => "TYA",
                5 => "CLV",
                6 => "CLD",
                _ => "SED",
            }
        } else if b == 2 {
            match a {
                0 => "PHP",
                1 => "PLP",
                2 => "PHA",
                3 => "PLA",
                4 => "DEY",
                5 => "TAY",
                6 => "INY",
                _ => "INX",
            }
        } else if b == 0 {
            match a {
                0 => "BRK",
                1 => "JSR",
                2 => "RTI",
                3 => "RTS",
                4 => "NOP",
                5 => "LDY",
                6 => "CPY",
                _ => "CPX",
            }
        } else if b == 1 || b == 3 {
            match a {
                0 => "NOP",
                1 => "BIT",
                2 => if b == 1 {
                    "NOP"
                } else {
                    "JMP"
                },
                3 => if b == 1 {
                    "NOP"
                } else {
                    "JMP"
                },
                4 => "STY",
                5 => "LDY",
                6 => "CPY",
                _ => "CPX",
            }
        } else {
            if a == 4 {
                if b == 5 {
                    "STY"
                } else {
                    "SHY"
                }
            } else if a == 5 {
                "LDY"
            } else {
                "NOP"
            }
        }
    }
}

/// Every opcode's instruction carries the mnemonic that its place in the
/// matrix gives, so every instruction is named by its standard mnemonic.
pub proof fn lemma_mnemonic_matrix(o: u8)
    ensures
        op_name(matrix(o).0) == name_matrix(o),
        op_name(decode_spec(o).0) == name_matrix(o),
{
    lemma_decode_matrix(o);
}

} // verus!
