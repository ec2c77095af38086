//! Addressing modes: how an instruction finds its operand.
use vstd::prelude::*;

use super::arith::{add8, inc16, make_word, page_next, word};
use super::status::{flag, I};
use super::trace::{rd, Cycle, Regs};
use super::Cpu;
use crate::bus::Bus;

verus! {

/// The ways a 6502 instruction can name its operand.
#[derive(Clone, Copy, PartialEq, Eq, Structural, Debug)]
pub enum AddressingMode {
    Absolute,
    AbsoluteX,
    AbsoluteY,
    Accumulator,
    Immediate,
    Implied,
    IndexedIndirect,
    Indirect,
    IndirectIndexed,
    Relative,
    ZeroPage,
    ZeroPageX,
    ZeroPageY,
}

/// Whether the mode names a memory operand through an effective address.
pub open spec fn names_memory(mode: AddressingMode) -> bool {
    !(mode is Accumulator || mode is Implied || mode is Relative)
}

/// What an addressing mode did: whether the cycles had the right shape,
/// how many cycles it took, the effective address and the program counter
/// after the operand bytes.
pub struct EaOutcome {
    pub ok: bool,
    pub n: int,
    pub ea: u16,
    pub pc: u16,
}

/// Indexing `base` by `index` within a page: the low byte of the result, the
/// carry out of the low byte, and the final address once the carry has been
/// added to the high byte.
pub open spec fn indexed(low: u8, high: u8, index: u8) -> (u8, bool, u16) {
    let sum = low as int + index as int;
    let carry = sum >= 256;
    (add8(low, index as int), carry, word(add8(low, index as int), add8(high, if carry { 1 } else { 0 })))
}

/// The cycles an addressing mode performs, read from `t` starting at index
/// `b`, for an instruction that starts with registers `r`. `write` is whether
/// the instruction writes its operand: such instructions always take the
/// cycle that fixes a page crossing.
pub open spec fn ea_spec(mode: AddressingMode, write: bool, r: Regs, t: Seq<Cycle>, b: int) -> EaOutcome {
    let i = flag(r.p, I);
    let pc1 = inc16(r.pc);
    let pc2 = inc16(pc1);
    match mode {
        AddressingMode::Absolute => EaOutcome {
            ok: rd(t[b], r.pc, i) && rd(t[b + 1], pc1, i),
            n: 2,
            ea: word(t[b].data, t[b + 1].data),
            pc: pc2,
        },
        AddressingMode::AbsoluteX | AddressingMode::AbsoluteY => {
            let index = if mode is AbsoluteX { r.x } else { r.y };
            let (low, carry, ea) = indexed(t[b].data, t[b + 1].data, index);
            let extra = carry || write;
            EaOutcome {
                ok: rd(t[b], r.pc, i) && rd(t[b + 1], pc1, i) && (extra ==> rd(
                    t[b + 2],
                    word(low, t[b + 1].data),
                    i,
                )),
                n: if extra { 3 } else { 2 },
                ea,
                pc: pc2,
            }
        },
        AddressingMode::Immediate => EaOutcome { ok: true, n: 0, ea: r.pc, pc: pc1 },
        AddressingMode::Indirect => {
            let ptr = word(t[b].data, t[b + 1].data);
            EaOutcome {
                ok: rd(t[b], r.pc, i) && rd(t[b + 1], pc1, i) && rd(t[b + 2], ptr, i) && rd(
                    t[b + 3],
                    page_next(ptr),
                    i,
                ),
                n: 4,
                ea: word(t[b + 2].data, t[b + 3].data),
                pc: pc2,
            }
        },
        AddressingMode::IndexedIndirect => {
            let ptr = t[b].data;
            let p = add8(ptr, r.x as int) as u16;
            EaOutcome {
                ok: rd(t[b], r.pc, i) && rd(t[b + 1], ptr as u16, i) && rd(t[b + 2], p, i) && rd(
                    t[b + 3],
                    page_next(p),
                    i,
                ),
                n: 4,
                ea: word(t[b + 2].data, t[b + 3].data),
                pc: pc1,
            }
        },
        AddressingMode::IndirectIndexed => {
            let ptr = t[b].data;
            let (low, carry, ea) = indexed(t[b + 1].data, t[b + 2].data, r.y);
            let extra = carry || write;
            EaOutcome {
                ok: rd(t[b], r.pc, i) && rd(t[b + 1], ptr as u16, i) && rd(
                    t[b + 2],
                    add8(ptr, 1) as u16,
                    i,
                ) && (extra ==> rd(t[b + 3], word(low, t[b + 2].data), i)),
                n: if extra { 4 } else { 3 },
                ea,
                pc: pc1,
            }
        },
        AddressingMode::ZeroPage => EaOutcome {
            ok: rd(t[b], r.pc, i),
            n: 1,
            ea: t[b].data as u16,
            pc: pc1,
        },
        AddressingMode::ZeroPageX | AddressingMode::ZeroPageY => {
            let index = if mode is ZeroPageX { r.x } else { r.y };
            EaOutcome {
                ok: rd(t[b], r.pc, i) && rd(t[b + 1], t[b].data as u16, i),
                n: 2,
                ea: add8(t[b].data, index as int) as u16,
                pc: pc1,
            }
        },
        _ => EaOutcome { ok: false, n: 0, ea: 0, pc: r.pc },
    }
}

/// Indexing adds the index to the base address, wrapping at the end of the
/// address space: the low byte is the low byte of the sum, and the carry
/// tells whether the sum left the base's page.
pub proof fn lemma_indexed(low: u8, high: u8, index: u8)
    ensures
        ({
            let (l, carry, ea) = indexed(low, high, index);
            let sum = word(low, high) + index;
            &&& ea as int == sum % 65536
            &&& l as int == (low + index) % 256
            &&& carry == (sum / 256 != high)
        }),
{
}

/// The effective addresses in arithmetic: zero page indexing wraps within
/// the zero page, absolute indexing adds the index to the operand word,
/// the indexed-indirect pointer wraps within the zero page, and the
/// indirect-indexed address adds Y to the word read from the zero page
/// pointer and the byte after it in the zero page.
pub proof fn lemma_effective_addresses(mode: AddressingMode, write: bool, r: Regs, t: Seq<Cycle>, b: int)
    ensures
        ({
            let e = ea_spec(mode, write, r, t, b);
            let operand = word(t[b].data, t[b + 1].data);
            &&& mode is ZeroPage ==> e.ea as int == t[b].data
            &&& mode is ZeroPageX ==> e.ea as int == (t[b].data + r.x) % 256
            &&& mode is ZeroPageY ==> e.ea as int == (t[b].data + r.y) % 256
            &&& mode is Absolute ==> e.ea == operand
            &&& mode is AbsoluteX ==> e.ea as int == (operand + r.x) % 65536
            &&& mode is AbsoluteY ==> e.ea as int == (operand + r.y) % 65536
            &&& mode is IndexedIndirect ==> e.ok ==> t[b + 2].address as int == (t[b].data + r.x)
                % 256
            &&& mode is IndirectIndexed ==> {
                &&& e.ea as int == (word(t[b + 1].data, t[b + 2].data) + r.y) % 65536
                &&& e.ok ==> t[b + 2].address as int == (t[b].data + 1) % 256
            }
            &&& mode is Immediate ==> e.ea == r.pc
        }),
{
    lemma_indexed(t[b].data, t[b + 1].data, r.x);
    lemma_indexed(t[b].data, t[b + 1].data, r.y);
    lemma_indexed(t[b + 1].data, t[b + 2].data, r.y);
}

/// The outcome of an addressing mode depends only on the cycles it
/// performed.
pub proof fn lemma_ea_agree(mode: AddressingMode, write: bool, r: Regs, t: Seq<Cycle>, u: Seq<Cycle>, b: int)
    requires
        0 <= b,
        b + ea_spec(mode, write, r, t, b).n <= t.len(),
        b + ea_spec(mode, write, r, t, b).n <= u.len(),
        forall|k: int| b <= k < b + ea_spec(mode, write, r, t, b).n ==> t[k] == u[k],
    ensures
        ea_spec(mode, write, r, t, b) == ea_spec(mode, write, r, u, b),
{
    let n = ea_spec(mode, write, r, t, b).n;
    if n >= 1 {
        assert(t[b] == u[b]);
    }
    if n >= 2 {
        assert(t[b + 1] == u[b + 1]);
    }
    if n >= 3 {
        assert(t[b + 2] == u[b + 2]);
    }
    if n >= 4 {
        assert(t[b + 3] == u[b + 3]);
    }
}

impl<B: Bus> Cpu<B> {
    #[verifier::spinoff_prover]
    #[verifier::rlimit(40)]
    fn ea_absolute(&mut self, mode: AddressingMode, write: bool) -> (ea: u16)
        requires
            old(self).room(2),
            mode is Absolute,
        ensures
            ({
                let o = ea_spec(mode, write, old(self).regs(), final(self).trace@, old(self).trace@.len() as int);
                &&& o.ok
                &&& final(self).after(*old(self), o.n)
                &&& ea == o.ea
                &&& final(self).regs() == (Regs { pc: o.pc, ..old(self).regs() })
            }),
    {
        self.consume_word()
    }

    #[verifier::rlimit(40)]
    fn ea_absolute_indexed(&mut self, mode: AddressingMode, write: bool) -> (ea: u16)
        requires
            old(self).room(3),
            mode is AbsoluteX || mode is AbsoluteY,
        ensures
            ({
                let o = ea_spec(mode, write, old(self).regs(), final(self).trace@, old(self).trace@.len() as int);
                &&& o.ok
                &&& final(self).after(*old(self), o.n)
                &&& ea == o.ea
                &&& final(self).regs() == (Regs { pc: o.pc, ..old(self).regs() })
            }),
    {
        let ghost b = self.trace@.len() as int;
        let index = if mode == AddressingMode::AbsoluteX { self.x } else { self.y };
        let low0 = self.consume_byte();
        let sum = low0 as u16 + index as u16;
        let page_cross = sum > 255;
        let low = (sum % 256) as u8;
        let high = self.consume_byte();
        let fixed_high = if page_cross { high.wrapping_add(1) } else { high };
        let effective_address = make_word(low, fixed_high);
        let ghost t1 = self.trace@;
        proof {
            assert(low == add8(low0, index as int));
            assert(fixed_high == add8(high, if page_cross { 1 } else { 0 }));
            assert(indexed(low0, high, index) == (low, page_cross, effective_address));
        }

        // If the effective address is invalid, i.e., it crossed a page, then
        // it takes an extra read cycle to fix it. Write instructions always
        // have the extra read since they can't undo a write to an invalid
        // address.
        if page_cross || write {
            self.read_byte(make_word(low, high));
            proof {
                assert(self.trace@[b] == t1[b]);
                assert(self.trace@[b + 1] == t1[b + 1]);
            }
        }
        effective_address
    }

    #[verifier::spinoff_prover]
    #[verifier::rlimit(40)]
    fn ea_immediate(&mut self, mode: AddressingMode, write: bool) -> (ea: u16)
        requires
            old(self).room(0),
            mode is Immediate,
        ensures
            ({
                let o = ea_spec(mode, write, old(self).regs(), final(self).trace@, old(self).trace@.len() as int);
                &&& o.ok
                &&& final(self).after(*old(self), o.n)
                &&& ea == o.ea
                &&& final(self).regs() == (Regs { pc: o.pc, ..old(self).regs() })
            }),
    {
        let effective_address = self.pc;
        self.pc = self.pc.wrapping_add(1);
        effective_address
    }

    #[verifier::spinoff_prover]
    #[verifier::rlimit(40)]
    fn ea_indirect(&mut self, mode: AddressingMode, write: bool) -> (ea: u16)
        requires
            old(self).room(4),
            mode is Indirect,
        ensures
            ({
                let o = ea_spec(mode, write, old(self).regs(), final(self).trace@, old(self).trace@.len() as int);
                &&& o.ok
                &&& final(self).after(*old(self), o.n)
                &&& ea == o.ea
                &&& final(self).regs() == (Regs { pc: o.pc, ..old(self).regs() })
            }),
    {
        let ghost b = self.trace@.len() as int;
        let ptr = self.consume_word();
        let ghost t1 = self.trace@;
        let ea = self.read_word_bugged(ptr);
        proof {
            assert(self.trace@[b] == t1[b]);
            assert(self.trace@[b + 1] == t1[b + 1]);
        }
        ea
    }

    #[verifier::spinoff_prover]
    #[verifier::rlimit(40)]
    fn ea_indexed_indirect(&mut self, mode: AddressingMode, write: bool) -> (ea: u16)
        requires
            old(self).room(4),
            mode is IndexedIndirect,
        ensures
            ({
                let o = ea_spec(mode, write, old(self).regs(), final(self).trace@, old(self).trace@.len() as int);
                &&& o.ok
                &&& final(self).after(*old(self), o.n)
                &&& ea == o.ea
                &&& final(self).regs() == (Regs { pc: o.pc, ..old(self).regs() })
            }),
    {
        let ghost b = self.trace@.len() as int;
        let ptr = self.consume_byte();
        let ghost t1 = self.trace@;
        self.read_byte(ptr as u16);
        let ghost t2 = self.trace@;
        let ea = self.read_word_bugged(ptr.wrapping_add(self.x) as u16);
        proof {
            assert(self.trace@[b] == t1[b]);
            assert(self.trace@[b + 1] == t2[b + 1]);
        }
        ea
    }

    #[verifier::spinoff_prover]
    #[verifier::rlimit(40)]
    fn ea_indirect_indexed(&mut self, mode: AddressingMode, write: bool) -> (ea: u16)
        requires
            old(self).room(4),
            mode is IndirectIndexed,
        ensures
            ({
                let o = ea_spec(mode, write, old(self).regs(), final(self).trace@, old(self).trace@.len() as int);
                &&& o.ok
                &&& final(self).after(*old(self), o.n)
                &&& ea == o.ea
                &&& final(self).regs() == (Regs { pc: o.pc, ..old(self).regs() })
            }),
    {
        let ghost b = self.trace@.len() as int;
        let ptr = self.consume_byte();
        let ghost t1 = self.trace@;
        let low0 = self.read_byte(ptr as u16);
        let ghost t2 = self.trace@;
        let sum = low0 as u16 + self.y as u16;
        let did_cross_page = sum > 255;
        let low = (sum % 256) as u8;
        let high = self.read_byte(ptr.wrapping_add(1) as u16);
        let ghost t3 = self.trace@;
        let fixed_high = if did_cross_page { high.wrapping_add(1) } else { high };
        let effective_address = make_word(low, fixed_high);
        proof {
            assert(low == add8(low0, self.y as int));
            assert(fixed_high == add8(high, if did_cross_page { 1 } else { 0 }));
            assert(indexed(low0, high, self.y) == (low, did_cross_page, effective_address));
        }

        // If the effective address is invalid, i.e., it crossed a page, then
        // it takes an extra read cycle to fix it. Write instructions always
        // have the extra read since they can't undo a write to an invalid
        // address.
        if did_cross_page || write {
            self.read_byte(make_word(low, high));
        }
        proof {
            assert(self.trace@[b] == t1[b]);
            assert(self.trace@[b + 1] == t2[b + 1]);
            assert(self.trace@[b + 2] == t3[b + 2]);
        }
        effective_address
    }

    #[verifier::spinoff_prover]
    #[verifier::rlimit(40)]
    fn ea_zero_page(&mut self, mode: AddressingMode, write: bool) -> (ea: u16)
        requires
            old(self).room(1),
            mode is ZeroPage,
        ensures
            ({
                let o = ea_spec(mode, write, old(self).regs(), final(self).trace@, old(self).trace@.len() as int);
                &&& o.ok
                &&& final(self).after(*old(self), o.n)
                &&& ea == o.ea
                &&& final(self).regs() == (Regs { pc: o.pc, ..old(self).regs() })
            }),
    {
        self.consume_byte() as u16
    }

    #[verifier::spinoff_prover]
    #[verifier::rlimit(40)]
    fn ea_zero_page_indexed(&mut self, mode: AddressingMode, write: bool) -> (ea: u16)
        requires
            old(self).room(2),
            mode is ZeroPageX || mode is ZeroPageY,
        ensures
            ({
                let o = ea_spec(mode, write, old(self).regs(), final(self).trace@, old(self).trace@.len() as int);
                &&& o.ok
                &&& final(self).after(*old(self), o.n)
                &&& ea == o.ea
                &&& final(self).regs() == (Regs { pc: o.pc, ..old(self).regs() })
            }),
    {
        let ghost b = self.trace@.len() as int;
        let index = if mode == AddressingMode::ZeroPageX { self.x } else { self.y };
        let address = self.consume_byte();
        let ghost t1 = self.trace@;
        self.read_byte(address as u16);
        proof {
            assert(self.trace@[b] == t1[b]);
        }
        address.wrapping_add(index) as u16
    }

    /// Performs the cycles of addressing mode `mode` and returns the
    /// effective address of the operand.
    #[verifier::spinoff_prover]
    #[verifier::rlimit(40)]
    pub fn effective_address(&mut self, mode: AddressingMode, write: bool) -> (ea: u16)
        requires
            old(self).room(4),
            names_memory(mode),
        ensures
            ({
                let o = ea_spec(mode, write, old(self).regs(), final(self).trace@, old(self).trace@.len() as int);
                &&& o.ok
                &&& final(self).after(*old(self), o.n)
                &&& ea == o.ea
                &&& final(self).regs() == (Regs { pc: o.pc, ..old(self).regs() })
            }),
    {
        match mode {
            AddressingMode::Absolute => self.ea_absolute(mode, write),
            AddressingMode::AbsoluteX | AddressingMode::AbsoluteY => self.ea_absolute_indexed(mode, write),
            AddressingMode::Immediate => self.ea_immediate(mode, write),
            AddressingMode::Indirect => self.ea_indirect(mode, write),
            AddressingMode::IndexedIndirect => self.ea_indexed_indirect(mode, write),
            AddressingMode::IndirectIndexed => self.ea_indirect_indexed(mode, write),
            AddressingMode::ZeroPage => self.ea_zero_page(mode, write),
            AddressingMode::ZeroPageX | AddressingMode::ZeroPageY => self.ea_zero_page_indexed(mode, write),
            AddressingMode::Accumulator | AddressingMode::Implied | AddressingMode::Relative => {
                // These modes name no memory operand; the precondition rules
                // them out.
                self.pc
            },
        }
    }
}

} // verus!
