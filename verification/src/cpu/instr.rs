//! The instructions of the processor.
use vstd::prelude::*;

use super::arith::{add8, inc16, lemma_add8_dec, lemma_add8_sub, lemma_byte_ops, lemma_overflow_bits, make_word, stack_addr, word};
use super::mode::{ea_spec, lemma_ea_agree, names_memory, AddressingMode};
use super::semantics::{
    adc_regs, compare_p, is_branch_op, is_read_op, is_rmw_op, is_store_op, op_spec, rmw_effect, rmw_value,
    shift_carry, store_write, Op,
};
use super::status::{flag, lemma_set_flag, set_flag, set_zn, Status, C, I, Z};
use super::trace::{rd, wr, Regs, Variant};
use super::Cpu;
use crate::bus::Bus;

verus! {

/// Whether `mode` is one that instruction `op` can be decoded with.
pub open spec fn valid_mode(op: Op, mode: AddressingMode) -> bool {
    if is_read_op(op) || is_rmw_op(op) || is_store_op(op) {
        names_memory(mode)
    } else if op is Jmp {
        mode is Absolute || mode is Indirect
    } else if op is AslA || op is LsrA || op is RolA || op is RorA {
        mode is Accumulator
    } else if is_branch_op(op) {
        mode is Relative
    } else if op is Jsr {
        mode is Absolute
    } else {
        mode is Implied
    }
}

/// The value a read-modify-write instruction writes back.
fn modified(op: Op, value: u8, carry: bool) -> (w: u8)
    requires
        is_rmw_op(op),
    ensures
        w == rmw_value(op, value, carry),
{
    let c: u8 = if carry { 1 } else { 0 };
    proof {
        lemma_byte_ops(value, c);
    }
    match op {
        Op::Asl | Op::Slo => value << 1,
        Op::Lsr | Op::Sre => value >> 1,
        Op::Rol | Op::Rla => ((value << 1) & 0xfe) | c,
        Op::Ror | Op::Rra => (c << 7) | ((value >> 1) & 0x7f),
        Op::Inc | Op::Isb => value.wrapping_add(1),
        _ => value.wrapping_sub(1),
    }
}

/// The address and data of the write a store instruction performs.
fn store_target(op: Op, variant: Variant, a: u8, x: u8, y: u8, ea: u16) -> (w: (u16, u8))
    requires
        is_store_op(op),
    ensures
        w == store_write(op, Regs { a, x, y, pc: 0, s: 0, p: 0, variant }, ea),
{
    let source = match op {
        Op::Sta => a,
        Op::Stx | Op::Shx => x,
        Op::Sty | Op::Shy => y,
        _ => a & x,
    };
    match op {
        Op::Sha | Op::Shx | Op::Shy | Op::Tas => {
            let low = (ea % 256) as u8;
            let high = (ea / 256) as u8;
            match variant {
                Variant::Debugger => {
                    // https://forums.nesdev.org/viewtopic.php?f=3&t=3831&start=30
                    let data = source & high.wrapping_add(1);
                    (make_word(low, data), data)
                },
                Variant::Emulator => {
                    let index = match op {
                        Op::Shy => x,
                        _ => y,
                    };
                    // Without a page cross the high byte of the base address
                    // is the effective one, and gets the increment.
                    let crossed = low < index;
                    let data = if crossed {
                        source & high
                    } else {
                        source & high.wrapping_add(1)
                    };
                    (make_word(low, if crossed { data } else { high }), data)
                },
            }
        },
        _ => (ea, source),
    }
}

impl<B: Bus> Cpu<B> {
    /// `self` is `prev` after executing instruction `op` in mode `mode`, its
    /// opcode already fetched.
    pub open spec fn executed(&self, prev: Self, op: Op, mode: AddressingMode) -> bool {
        let o = op_spec(op, mode, prev.regs(), self.trace@, prev.trace@.len() as int);
        &&& o.ok
        &&& self.after(prev, o.n)
        &&& self.regs() == o.regs
    }

    /// Adds `value` and the carry to the accumulator.
    #[verifier::spinoff_prover]
    #[verifier::rlimit(40)]
    fn add(&mut self, value: u8)
        requires
            old(self).wf(),
        ensures
            final(self).after(*old(self), 0),
            final(self).regs() == adc_regs(old(self).regs(), value),
    {
        let a = self.a;
        let carry: u16 = if self.p.c() { 1 } else { 0 };
        let result = self.a as u16 + value as u16 + carry;
        self.a = (result % 256) as u8;

        self.p.set_c(result > 0xff);
        self.p.set_z(self.a == 0);
        proof {
            lemma_overflow_bits(a, value, self.a);
            lemma_byte_ops(self.a, 0);
        }
        self.p.set_v(((a ^ self.a) & (value ^ self.a) & 0x80) != 0);
        self.p.set_n(self.a & 0x80 != 0);
    }

    /// Sets the flags for comparing `register` with `value`.
    #[verifier::spinoff_prover]
    #[verifier::rlimit(40)]
    fn compare(&mut self, register: u8, value: u8)
        requires
            old(self).wf(),
        ensures
            final(self).after(*old(self), 0),
            final(self).regs() == (Regs { p: compare_p(old(self).p.0, register, value), ..old(self).regs() }),
    {
        let result = register.wrapping_sub(value);

        self.p.set_c(register >= value);
        self.p.set_z_and_n(result);
    }

    /// Fetches the operand of a read instruction.
    #[verifier::spinoff_prover]
    #[verifier::rlimit(40)]
    fn read_operand(&mut self, mode: AddressingMode) -> (v: u8)
        requires
            old(self).room(5),
            names_memory(mode),
        ensures
            ({
                let t = final(self).trace@;
                let b = old(self).trace@.len() as int;
                let e = ea_spec(mode, false, old(self).regs(), t, b);
                &&& e.ok
                &&& rd(t[b + e.n], e.ea, flag(old(self).p.0, I))
                &&& v == t[b + e.n].data
                &&& final(self).after(*old(self), e.n + 1)
                &&& final(self).regs() == (Regs { pc: e.pc, ..old(self).regs() })
            }),
    {
        let ghost r = self.regs();
        let ghost b = self.trace@.len() as int;
        let ea = self.effective_address(mode, false);
        let ghost t1 = self.trace@;
        let v = self.read_byte(ea);
        proof {
            lemma_ea_agree(mode, false, r, t1, self.trace@, b);
        }
        v
    }

    /// Reads the operand of a read-modify-write instruction, writes it back
    /// unchanged, then writes the value the instruction computes from it.
    #[verifier::spinoff_prover]
    #[verifier::rlimit(40)]
    fn modify_operand(&mut self, op: Op, mode: AddressingMode) -> (vw: (u8, u8))
        requires
            old(self).room(7),
            names_memory(mode),
            is_rmw_op(op),
        ensures
            ({
                let t = final(self).trace@;
                let b = old(self).trace@.len() as int;
                let e = ea_spec(mode, true, old(self).regs(), t, b);
                let i = flag(old(self).p.0, I);
                &&& e.ok
                &&& rd(t[b + e.n], e.ea, i)
                &&& vw.0 == t[b + e.n].data
                &&& vw.1 == rmw_value(op, vw.0, flag(old(self).p.0, C))
                &&& wr(t[b + e.n + 1], e.ea, vw.0, i)
                &&& wr(t[b + e.n + 2], e.ea, vw.1, i)
                &&& final(self).after(*old(self), e.n + 3)
                &&& final(self).regs() == (Regs { pc: e.pc, ..old(self).regs() })
            }),
    {
        let ghost r = self.regs();
        let ghost b = self.trace@.len() as int;
        let ea = self.effective_address(mode, true);
        let ghost t1 = self.trace@;
        let ghost n = t1.len() - b;
        let value = self.read_byte(ea);
        let ghost t2 = self.trace@;
        self.write_byte(ea, value);
        let ghost t3 = self.trace@;
        let result = modified(op, value, self.p.c());
        self.write_byte(ea, result);
        proof {
            lemma_ea_agree(mode, true, r, t1, self.trace@, b);
            assert(self.trace@[b + n] == t2[b + n]);
            assert(self.trace@[b + n + 1] == t3[b + n + 1]);
        }
        (value, result)
    }

    /// Performs one of the store instructions.
    #[verifier::spinoff_prover]
    #[verifier::rlimit(40)]
    fn store(&mut self, op: Op, mode: AddressingMode)
        requires
            old(self).room(5),
            names_memory(mode),
            is_store_op(op),
        ensures
            ({
                let t = final(self).trace@;
                let b = old(self).trace@.len() as int;
                let r = old(self).regs();
                let e = ea_spec(mode, true, r, t, b);
                let (address, data) = store_write(op, r, e.ea);
                &&& e.ok
                &&& wr(t[b + e.n], address, data, flag(r.p, I))
                &&& final(self).after(*old(self), e.n + 1)
                &&& final(self).regs() == (Regs {
                    pc: e.pc,
                    s: if op is Tas { r.a & r.x } else { r.s },
                    ..r
                })
            }),
    {
        let ghost r = self.regs();
        let ghost b = self.trace@.len() as int;
        let ea = self.effective_address(mode, true);
        let ghost t1 = self.trace@;
        let (address, data) = store_target(op, self.variant, self.a, self.x, self.y, ea);
        proof {
            assert(store_write(op, r, ea) == store_write(
                op,
                Regs { a: r.a, x: r.x, y: r.y, pc: 0, s: 0, p: 0, variant: r.variant },
                ea,
            ));
        }
        if op == Op::Tas {
            self.s = self.a & self.x;
        }
        self.write_byte(address, data);
        proof {
            lemma_ea_agree(mode, true, r, t1, self.trace@, b);
        }
    }
}

impl<B: Bus> Cpu<B> {
    /// ADC: adds the operand and the carry to the accumulator.
    #[verifier::spinoff_prover]
    #[verifier::rlimit(40)]
    pub fn adc(&mut self, mode: AddressingMode)
        requires
            old(self).room(7),
            names_memory(mode),
        ensures
            final(self).executed(*old(self), Op::Adc, mode),
    {
        proof {
            reveal(op_spec);
        }
        let value = self.read_operand(mode);
        self.add(value);
    }

    /// SBC: subtracts the operand and the borrow from the accumulator.
    #[verifier::spinoff_prover]
    #[verifier::rlimit(40)]
    pub fn sbc(&mut self, mode: AddressingMode)
        requires
            old(self).room(7),
            names_memory(mode),
        ensures
            final(self).executed(*old(self), Op::Sbc, mode),
    {
        proof {
            reveal(op_spec);
        }
        // If we reformulate subtraction as addition, then we can use the same
        // logic for ADC and SBC. All we need to do is make our value from
        // memory negative, i.e., invert it.
        let value = self.read_operand(mode);
        proof {
            lemma_byte_ops(value, 0);
        }
        self.add(value ^ 0xff);
    }

    /// ALR: ANDs the operand into the accumulator, then shifts it right.
    #[verifier::spinoff_prover]
    #[verifier::rlimit(40)]
    pub fn alr(&mut self, mode: AddressingMode)
        requires
            old(self).room(7),
            names_memory(mode),
        ensures
            final(self).executed(*old(self), Op::Alr, mode),
    {
        proof {
            reveal(op_spec);
        }
        let value = self.read_operand(mode);
        self.a = self.a & value;
        let carry = self.a & 0x01 != 0;
        proof {
            lemma_byte_ops(self.a, 0);
        }
        self.a = self.a.wrapping_shr(1);

        self.p.set_c(carry);
        self.p.set_z_and_n(self.a);
    }

    /// ANC: ANDs the operand into the accumulator and copies bit 7 into the carry.
    #[verifier::spinoff_prover]
    #[verifier::rlimit(40)]
    pub fn anc(&mut self, mode: AddressingMode)
        requires
            old(self).room(7),
            names_memory(mode),
        ensures
            final(self).executed(*old(self), Op::Anc, mode),
    {
        proof {
            reveal(op_spec);
        }
        let value = self.read_operand(mode);
        self.a = self.a & value;
        proof {
            lemma_byte_ops(self.a, 0);
        }

        self.p.set_c(self.a & 0x80 != 0);
        self.p.set_z_and_n(self.a);
    }

    /// AND: ANDs the operand into the accumulator.
    #[verifier::spinoff_prover]
    #[verifier::rlimit(40)]
    pub fn and(&mut self, mode: AddressingMode)
        requires
            old(self).room(7),
            names_memory(mode),
        ensures
            final(self).executed(*old(self), Op::And, mode),
    {
        proof {
            reveal(op_spec);
        }
        let value = self.read_operand(mode);
        self.a = self.a & value;

        self.p.set_z_and_n(self.a);
    }

    /// ANE: unstable on hardware; it reads its operand and does nothing else.
    #[verifier::spinoff_prover]
    #[verifier::rlimit(40)]
    pub fn ane(&mut self, mode: AddressingMode)
        requires
            old(self).room(7),
            names_memory(mode),
        ensures
            final(self).executed(*old(self), Op::Ane, mode),
    {
        proof {
            reveal(op_spec);
        }
        // Treat ANE as a NOP since it's unstable.
        self.read_operand(mode);
    }

    /// ARR: ANDs the operand into the accumulator, then rotates it right.
    #[verifier::spinoff_prover]
    #[verifier::rlimit(40)]
    pub fn arr(&mut self, mode: AddressingMode)
        requires
            old(self).room(7),
            names_memory(mode),
        ensures
            final(self).executed(*old(self), Op::Arr, mode),
    {
        proof {
            reveal(op_spec);
        }
        let value = self.read_operand(mode);
        let c: u8 = if self.p.c() { 1 } else { 0 };
        let anded = self.a & value;
        proof {
            lemma_byte_ops(anded, c);
        }
        self.a = (c << 7) | anded.wrapping_shr(1);
        proof {
            lemma_byte_ops(self.a, 0);
        }

        let ghost p0 = self.p.0;
        self.p.set_c(self.a & 0x40 != 0);
        self.p.set_z(self.a == 0);
        proof {
            lemma_set_flag(p0, C, C, self.a & 0x40 != 0);
            lemma_set_flag(set_flag(p0, C, self.a & 0x40 != 0), Z, C, self.a == 0);
        }
        let bit5 = (self.a >> 5) & 0x01;
        self.p.set_v(self.p.c() != (bit5 == 1));
        self.p.set_n(self.a & 0x80 != 0);
    }

    /// BIT: tests the operand against the accumulator.
    #[verifier::spinoff_prover]
    #[verifier::rlimit(40)]
    pub fn bit(&mut self, mode: AddressingMode)
        requires
            old(self).room(7),
            names_memory(mode),
        ensures
            final(self).executed(*old(self), Op::Bit, mode),
    {
        proof {
            reveal(op_spec);
        }
        let value = self.read_operand(mode);

        self.p.set_z(self.a & value == 0);
        self.p.set_v(Status::from(value).v());
        self.p.set_n(Status::from(value).n());
    }

    /// CMP: compares the accumulator with the operand.
    #[verifier::spinoff_prover]
    #[verifier::rlimit(40)]
    pub fn cmp(&mut self, mode: AddressingMode)
        requires
            old(self).room(7),
            names_memory(mode),
        ensures
            final(self).executed(*old(self), Op::Cmp, mode),
    {
        proof {
            reveal(op_spec);
        }
        let value = self.read_operand(mode);
        self.compare(self.a, value);
    }

    /// CPX: compares X with the operand.
    #[verifier::spinoff_prover]
    #[verifier::rlimit(40)]
    pub fn cpx(&mut self, mode: AddressingMode)
        requires
            old(self).room(7),
            names_memory(mode),
        ensures
            final(self).executed(*old(self), Op::Cpx, mode),
    {
        proof {
            reveal(op_spec);
        }
        let value = self.read_operand(mode);
        self.compare(self.x, value);
    }

    /// CPY: compares Y with the operand.
    #[verifier::spinoff_prover]
    #[verifier::rlimit(40)]
    pub fn cpy(&mut self, mode: AddressingMode)
        requires
            old(self).room(7),
            names_memory(mode),
        ensures
            final(self).executed(*old(self), Op::Cpy, mode),
    {
        proof {
            reveal(op_spec);
        }
        let value = self.read_operand(mode);
        self.compare(self.y, value);
    }

    /// EOR: exclusive-ORs the operand into the accumulator.
    #[verifier::spinoff_prover]
    #[verifier::rlimit(40)]
    pub fn eor(&mut self, mode: AddressingMode)
        requires
            old(self).room(7),
            names_memory(mode),
        ensures
            final(self).executed(*old(self), Op::Eor, mode),
    {
        proof {
            reveal(op_spec);
        }
        let value = self.read_operand(mode);
        self.a = self.a ^ value;

        self.p.set_z_and_n(self.a);
    }

    /// LAS: ANDs the operand with the stack pointer into A, X and S.
    #[verifier::spinoff_prover]
    #[verifier::rlimit(40)]
    pub fn las(&mut self, mode: AddressingMode)
        requires
            old(self).room(7),
            names_memory(mode),
        ensures
            final(self).executed(*old(self), Op::Las, mode),
    {
        proof {
            reveal(op_spec);
        }
        let value = self.read_operand(mode);
        self.a = value & self.s;
        self.x = self.a;
        self.s = self.a;

        self.p.set_z_and_n(self.x);
    }

    /// LAX: loads the operand into A and X.
    #[verifier::spinoff_prover]
    #[verifier::rlimit(40)]
    pub fn lax(&mut self, mode: AddressingMode)
        requires
            old(self).room(7),
            names_memory(mode),
        ensures
            final(self).executed(*old(self), Op::Lax, mode),
    {
        proof {
            reveal(op_spec);
        }
        let value = self.read_operand(mode);
        self.a = value;
        self.x = value;

        self.p.set_z_and_n(self.x);
    }

    /// LDA: loads the operand into the accumulator.
    #[verifier::spinoff_prover]
    #[verifier::rlimit(40)]
    pub fn lda(&mut self, mode: AddressingMode)
        requires
            old(self).room(7),
            names_memory(mode),
        ensures
            final(self).executed(*old(self), Op::Lda, mode),
    {
        proof {
            reveal(op_spec);
        }
        self.a = self.read_operand(mode);

        self.p.set_z_and_n(self.a);
    }

    /// LDX: loads the operand into X.
    #[verifier::spinoff_prover]
    #[verifier::rlimit(40)]
    pub fn ldx(&mut self, mode: AddressingMode)
        requires
            old(self).room(7),
            names_memory(mode),
        ensures
            final(self).executed(*old(self), Op::Ldx, mode),
    {
        proof {
            reveal(op_spec);
        }
        self.x = self.read_operand(mode);

        self.p.set_z_and_n(self.x);
    }

    /// LDY: loads the operand into Y.
    #[verifier::spinoff_prover]
    #[verifier::rlimit(40)]
    pub fn ldy(&mut self, mode: AddressingMode)
        requires
            old(self).room(7),
            names_memory(mode),
        ensures
            final(self).executed(*old(self), Op::Ldy, mode),
    {
        proof {
            reveal(op_spec);
        }
        let operand = self.read_operand(mode);
        self.y = operand;

        self.p.set_z_and_n(self.y);
    }

    /// LXA: loads the operand into A and X.
    #[verifier::spinoff_prover]
    #[verifier::rlimit(40)]
    pub fn lxa(&mut self, mode: AddressingMode)
        requires
            old(self).room(7),
            names_memory(mode),
        ensures
            final(self).executed(*old(self), Op::Lxa, mode),
    {
        proof {
            reveal(op_spec);
        }
        // This instruction should perform a bitwise AND between a constant and
        // the operand before storing the result. The constant is unreliable
        // though. To remove uncertainty, we have the constant always be 0xff,
        // removing the need for the bitwise AND.
        self.a = self.read_operand(mode);
        self.x = self.a;

        self.p.set_z_and_n(self.x);
    }

    /// NOP with an operand: reads the operand and does nothing else.
    #[verifier::spinoff_prover]
    #[verifier::rlimit(40)]
    pub fn nop(&mut self, mode: AddressingMode)
        requires
            old(self).room(7),
            names_memory(mode),
        ensures
            final(self).executed(*old(self), Op::Nop, mode),
    {
        proof {
            reveal(op_spec);
        }
        self.read_operand(mode);
    }

    /// ORA: ORs the operand into the accumulator.
    #[verifier::spinoff_prover]
    #[verifier::rlimit(40)]
    pub fn ora(&mut self, mode: AddressingMode)
        requires
            old(self).room(7),
            names_memory(mode),
        ensures
            final(self).executed(*old(self), Op::Ora, mode),
    {
        proof {
            reveal(op_spec);
        }
        let value = self.read_operand(mode);
        self.a = self.a | value;

        self.p.set_z_and_n(self.a);
    }

    /// SBX: subtracts the operand from A AND X, into X.
    #[verifier::spinoff_prover]
    #[verifier::rlimit(40)]
    pub fn sbx(&mut self, mode: AddressingMode)
        requires
            old(self).room(7),
            names_memory(mode),
        ensures
            final(self).executed(*old(self), Op::Sbx, mode),
    {
        proof {
            reveal(op_spec);
        }
        let value = self.read_operand(mode);
        let ax = self.a & self.x;
        let carry = ax >= value;
        self.x = ax.wrapping_sub(value);
        proof {
            lemma_add8_sub(ax, value);
        }

        self.p.set_c(carry);
        self.p.set_z_and_n(self.x);
    }

    /// ASL: shifts the operand left.
    #[verifier::spinoff_prover]
    #[verifier::rlimit(40)]
    pub fn asl(&mut self, mode: AddressingMode)
        requires
            old(self).room(7),
            names_memory(mode),
        ensures
            final(self).executed(*old(self), Op::Asl, mode),
    {
        proof {
            reveal(op_spec);
        }
        let (value, result) = self.modify_operand(Op::Asl, mode);
        proof {
            lemma_byte_ops(value, 0);
        }
        self.p.set_c(value & 0x80 != 0);
        self.p.set_z_and_n(result);
    }

    /// LSR: shifts the operand right.
    #[verifier::spinoff_prover]
    #[verifier::rlimit(40)]
    pub fn lsr(&mut self, mode: AddressingMode)
        requires
            old(self).room(7),
            names_memory(mode),
        ensures
            final(self).executed(*old(self), Op::Lsr, mode),
    {
        proof {
            reveal(op_spec);
        }
        let (value, result) = self.modify_operand(Op::Lsr, mode);
        proof {
            lemma_byte_ops(value, 0);
        }
        self.p.set_c(value & 0x01 != 0);
        self.p.set_z_and_n(result);
    }

    /// ROL: rotates the operand left through the carry.
    #[verifier::spinoff_prover]
    #[verifier::rlimit(40)]
    pub fn rol(&mut self, mode: AddressingMode)
        requires
            old(self).room(7),
            names_memory(mode),
        ensures
            final(self).executed(*old(self), Op::Rol, mode),
    {
        proof {
            reveal(op_spec);
        }
        let (value, result) = self.modify_operand(Op::Rol, mode);
        proof {
            lemma_byte_ops(value, 0);
        }
        self.p.set_c(value & 0x80 != 0);
        self.p.set_z_and_n(result);
    }

    /// ROR: rotates the operand right through the carry.
    #[verifier::spinoff_prover]
    #[verifier::rlimit(40)]
    pub fn ror(&mut self, mode: AddressingMode)
        requires
            old(self).room(7),
            names_memory(mode),
        ensures
            final(self).executed(*old(self), Op::Ror, mode),
    {
        proof {
            reveal(op_spec);
        }
        let (value, result) = self.modify_operand(Op::Ror, mode);
        proof {
            lemma_byte_ops(value, 0);
        }
        self.p.set_c(value & 0x01 != 0);
        self.p.set_z_and_n(result);
    }

    /// INC: increments the operand.
    #[verifier::spinoff_prover]
    #[verifier::rlimit(40)]
    pub fn inc(&mut self, mode: AddressingMode)
        requires
            old(self).room(7),
            names_memory(mode),
        ensures
            final(self).executed(*old(self), Op::Inc, mode),
    {
        proof {
            reveal(op_spec);
        }
        let (_, result) = self.modify_operand(Op::Inc, mode);
        self.p.set_z_and_n(result);
    }

    /// DEC: decrements the operand.
    #[verifier::spinoff_prover]
    #[verifier::rlimit(40)]
    pub fn dec(&mut self, mode: AddressingMode)
        requires
            old(self).room(7),
            names_memory(mode),
        ensures
            final(self).executed(*old(self), Op::Dec, mode),
    {
        proof {
            reveal(op_spec);
        }
        let (_, result) = self.modify_operand(Op::Dec, mode);
        self.p.set_z_and_n(result);
    }

    /// SLO: shifts the operand left, then ORs it into the accumulator.
    #[verifier::spinoff_prover]
    #[verifier::rlimit(40)]
    pub fn slo(&mut self, mode: AddressingMode)
        requires
            old(self).room(7),
            names_memory(mode),
        ensures
            final(self).executed(*old(self), Op::Slo, mode),
    {
        proof {
            reveal(op_spec);
        }
        let (value, result) = self.modify_operand(Op::Slo, mode);
        proof {
            lemma_byte_ops(value, 0);
        }
        self.a = self.a | result;
        self.p.set_c(value & 0x80 != 0);
        self.p.set_z_and_n(self.a);
    }

    /// SRE: shifts the operand right, then exclusive-ORs it into the accumulator.
    #[verifier::spinoff_prover]
    #[verifier::rlimit(40)]
    pub fn sre(&mut self, mode: AddressingMode)
        requires
            old(self).room(7),
            names_memory(mode),
        ensures
            final(self).executed(*old(self), Op::Sre, mode),
    {
        proof {
            reveal(op_spec);
        }
        let (value, result) = self.modify_operand(Op::Sre, mode);
        proof {
            lemma_byte_ops(value, 0);
        }
        self.a = self.a ^ result;
        self.p.set_c(value & 0x01 != 0);
        self.p.set_z_and_n(self.a);
    }

    /// RLA: rotates the operand left, then ANDs it into the accumulator.
    #[verifier::spinoff_prover]
    #[verifier::rlimit(40)]
    pub fn rla(&mut self, mode: AddressingMode)
        requires
            old(self).room(7),
            names_memory(mode),
        ensures
            final(self).executed(*old(self), Op::Rla, mode),
    {
        proof {
            reveal(op_spec);
        }
        let (value, result) = self.modify_operand(Op::Rla, mode);
        proof {
            lemma_byte_ops(value, 0);
        }
        self.a = self.a & result;
        self.p.set_c(value & 0x80 != 0);
        self.p.set_z_and_n(self.a);
    }

    /// RRA: rotates the operand right, then adds it to the accumulator.
    #[verifier::spinoff_prover]
    #[verifier::rlimit(40)]
    pub fn rra(&mut self, mode: AddressingMode)
        requires
            old(self).room(7),
            names_memory(mode),
        ensures
            final(self).executed(*old(self), Op::Rra, mode),
    {
        proof {
            reveal(op_spec);
        }
        let (value, result) = self.modify_operand(Op::Rra, mode);
        proof {
            lemma_byte_ops(value, 0);
        }
        self.p.set_c(value & 0x01 != 0);
        self.add(result);
    }

    /// DCP: decrements the operand, then compares the accumulator with it.
    #[verifier::spinoff_prover]
    #[verifier::rlimit(40)]
    pub fn dcp(&mut self, mode: AddressingMode)
        requires
            old(self).room(7),
            names_memory(mode),
        ensures
            final(self).executed(*old(self), Op::Dcp, mode),
    {
        proof {
            reveal(op_spec);
        }
        let (_, result) = self.modify_operand(Op::Dcp, mode);
        self.compare(self.a, result);
    }

    /// ISB: increments the operand, then subtracts it from the accumulator.
    #[verifier::spinoff_prover]
    #[verifier::rlimit(40)]
    pub fn isb(&mut self, mode: AddressingMode)
        requires
            old(self).room(7),
            names_memory(mode),
        ensures
            final(self).executed(*old(self), Op::Isb, mode),
    {
        proof {
            reveal(op_spec);
        }
        let (_, result) = self.modify_operand(Op::Isb, mode);
        proof {
            lemma_byte_ops(result, 0);
        }
        self.add(result ^ 0xff);
    }

    /// STA: stores the accumulator.
    #[verifier::spinoff_prover]
    #[verifier::rlimit(40)]
    pub fn sta(&mut self, mode: AddressingMode)
        requires
            old(self).room(7),
            names_memory(mode),
        ensures
            final(self).executed(*old(self), Op::Sta, mode),
    {
        proof {
            reveal(op_spec);
        }
        self.store(Op::Sta, mode);
    }

    /// STX: stores X.
    #[verifier::spinoff_prover]
    #[verifier::rlimit(40)]
    pub fn stx(&mut self, mode: AddressingMode)
        requires
            old(self).room(7),
            names_memory(mode),
        ensures
            final(self).executed(*old(self), Op::Stx, mode),
    {
        proof {
            reveal(op_spec);
        }
        self.store(Op::Stx, mode);
    }

    /// STY: stores Y.
    #[verifier::spinoff_prover]
    #[verifier::rlimit(40)]
    pub fn sty(&mut self, mode: AddressingMode)
        requires
            old(self).room(7),
            names_memory(mode),
        ensures
            final(self).executed(*old(self), Op::Sty, mode),
    {
        proof {
            reveal(op_spec);
        }
        self.store(Op::Sty, mode);
    }

    /// SAX: stores A AND X.
    #[verifier::spinoff_prover]
    #[verifier::rlimit(40)]
    pub fn sax(&mut self, mode: AddressingMode)
        requires
            old(self).room(7),
            names_memory(mode),
        ensures
            final(self).executed(*old(self), Op::Sax, mode),
    {
        proof {
            reveal(op_spec);
        }
        self.store(Op::Sax, mode);
    }

    /// SHA: stores A AND X AND the high byte of the address plus one.
    #[verifier::spinoff_prover]
    #[verifier::rlimit(40)]
    pub fn sha(&mut self, mode: AddressingMode)
        requires
            old(self).room(7),
            names_memory(mode),
        ensures
            final(self).executed(*old(self), Op::Sha, mode),
    {
        proof {
            reveal(op_spec);
        }
        self.store(Op::Sha, mode);
    }

    /// SHX: stores X AND the high byte of the address plus one.
    #[verifier::spinoff_prover]
    #[verifier::rlimit(40)]
    pub fn shx(&mut self, mode: AddressingMode)
        requires
            old(self).room(7),
            names_memory(mode),
        ensures
            final(self).executed(*old(self), Op::Shx, mode),
    {
        proof {
            reveal(op_spec);
        }
        self.store(Op::Shx, mode);
    }

    /// SHY: stores Y AND the high byte of the address plus one.
    #[verifier::spinoff_prover]
    #[verifier::rlimit(40)]
    pub fn shy(&mut self, mode: AddressingMode)
        requires
            old(self).room(7),
            names_memory(mode),
        ensures
            final(self).executed(*old(self), Op::Shy, mode),
    {
        proof {
            reveal(op_spec);
        }
        self.store(Op::Shy, mode);
    }

    /// TAS: puts A AND X in the stack pointer, then stores it as SHA does.
    #[verifier::spinoff_prover]
    #[verifier::rlimit(40)]
    pub fn tas(&mut self, mode: AddressingMode)
        requires
            old(self).room(7),
            names_memory(mode),
        ensures
            final(self).executed(*old(self), Op::Tas, mode),
    {
        proof {
            reveal(op_spec);
        }
        self.store(Op::Tas, mode);
    }

    /// CLC: clears the carry flag.
    #[verifier::spinoff_prover]
    #[verifier::rlimit(40)]
    pub fn clc(&mut self)
        requires
            old(self).room(7),
        ensures
            final(self).executed(*old(self), Op::Clc, AddressingMode::Implied),
    {
        proof {
            reveal(op_spec);
        }
        self.read_byte(self.pc);
        self.p.set_c(false);
    }

    /// CLD: clears the decimal flag.
    #[verifier::spinoff_prover]
    #[verifier::rlimit(40)]
    pub fn cld(&mut self)
        requires
            old(self).room(7),
        ensures
            final(self).executed(*old(self), Op::Cld, AddressingMode::Implied),
    {
        proof {
            reveal(op_spec);
        }
        self.read_byte(self.pc);
        self.p.set_d(false);
    }

    /// CLI: clears the interrupt disable flag.
    #[verifier::spinoff_prover]
    #[verifier::rlimit(40)]
    pub fn cli(&mut self)
        requires
            old(self).room(7),
        ensures
            final(self).executed(*old(self), Op::Cli, AddressingMode::Implied),
    {
        proof {
            reveal(op_spec);
        }
        self.read_byte(self.pc);
        self.p.set_i(false);
    }

    /// CLV: clears the overflow flag.
    #[verifier::spinoff_prover]
    #[verifier::rlimit(40)]
    pub fn clv(&mut self)
        requires
            old(self).room(7),
        ensures
            final(self).executed(*old(self), Op::Clv, AddressingMode::Implied),
    {
        proof {
            reveal(op_spec);
        }
        self.read_byte(self.pc);
        self.p.set_v(false);
    }

    /// SEC: sets the carry flag.
    #[verifier::spinoff_prover]
    #[verifier::rlimit(40)]
    pub fn sec(&mut self)
        requires
            old(self).room(7),
        ensures
            final(self).executed(*old(self), Op::Sec, AddressingMode::Implied),
    {
        proof {
            reveal(op_spec);
        }
        self.read_byte(self.pc);
        self.p.set_c(true);
    }

    /// SED: sets the decimal flag.
    #[verifier::spinoff_prover]
    #[verifier::rlimit(40)]
    pub fn sed(&mut self)
        requires
            old(self).room(7),
        ensures
            final(self).executed(*old(self), Op::Sed, AddressingMode::Implied),
    {
        proof {
            reveal(op_spec);
        }
        self.read_byte(self.pc);
        self.p.set_d(true);
    }

    /// SEI: sets the interrupt disable flag.
    #[verifier::spinoff_prover]
    #[verifier::rlimit(40)]
    pub fn sei(&mut self)
        requires
            old(self).room(7),
        ensures
            final(self).executed(*old(self), Op::Sei, AddressingMode::Implied),
    {
        proof {
            reveal(op_spec);
        }
        self.read_byte(self.pc);
        self.p.set_i(true);
    }

    /// DEX: decrements X.
    #[verifier::spinoff_prover]
    #[verifier::rlimit(40)]
    pub fn dex(&mut self)
        requires
            old(self).room(7),
        ensures
            final(self).executed(*old(self), Op::Dex, AddressingMode::Implied),
    {
        proof {
            reveal(op_spec);
        }
        self.read_byte(self.pc);
        let ghost before = self.x;
        self.x = self.x.wrapping_sub(1);
        proof {
            lemma_add8_dec(before);
        }
        self.p.set_z_and_n(self.x);
    }

    /// DEY: decrements Y.
    #[verifier::spinoff_prover]
    #[verifier::rlimit(40)]
    pub fn dey(&mut self)
        requires
            old(self).room(7),
        ensures
            final(self).executed(*old(self), Op::Dey, AddressingMode::Implied),
    {
        proof {
            reveal(op_spec);
        }
        self.read_byte(self.pc);
        let ghost before = self.y;
        self.y = self.y.wrapping_sub(1);
        proof {
            lemma_add8_dec(before);
        }
        self.p.set_z_and_n(self.y);
    }

    /// INX: increments X.
    #[verifier::spinoff_prover]
    #[verifier::rlimit(40)]
    pub fn inx(&mut self)
        requires
            old(self).room(7),
        ensures
            final(self).executed(*old(self), Op::Inx, AddressingMode::Implied),
    {
        proof {
            reveal(op_spec);
        }
        self.read_byte(self.pc);
        let ghost before = self.x;
        self.x = self.x.wrapping_add(1);
        assert(self.x == add8(before, 1));
        self.p.set_z_and_n(self.x);
    }

    /// INY: increments Y.
    #[verifier::spinoff_prover]
    #[verifier::rlimit(40)]
    pub fn iny(&mut self)
        requires
            old(self).room(7),
        ensures
            final(self).executed(*old(self), Op::Iny, AddressingMode::Implied),
    {
        proof {
            reveal(op_spec);
        }
        self.read_byte(self.pc);
        let ghost before = self.y;
        self.y = self.y.wrapping_add(1);
        assert(self.y == add8(before, 1));
        self.p.set_z_and_n(self.y);
    }

    /// TAX: copies A to X.
    #[verifier::spinoff_prover]
    #[verifier::rlimit(40)]
    pub fn tax(&mut self)
        requires
            old(self).room(7),
        ensures
            final(self).executed(*old(self), Op::Tax, AddressingMode::Implied),
    {
        proof {
            reveal(op_spec);
        }
        self.read_byte(self.pc);
        self.x = self.a;
        self.p.set_z_and_n(self.x);
    }

    /// TAY: copies A to Y.
    #[verifier::spinoff_prover]
    #[verifier::rlimit(40)]
    pub fn tay(&mut self)
        requires
            old(self).room(7),
        ensures
            final(self).executed(*old(self), Op::Tay, AddressingMode::Implied),
    {
        proof {
            reveal(op_spec);
        }
        self.read_byte(self.pc);
        self.y = self.a;
        self.p.set_z_and_n(self.y);
    }

    /// TSX: copies the stack pointer to X.
    #[verifier::spinoff_prover]
    #[verifier::rlimit(40)]
    pub fn tsx(&mut self)
        requires
            old(self).room(7),
        ensures
            final(self).executed(*old(self), Op::Tsx, AddressingMode::Implied),
    {
        proof {
            reveal(op_spec);
        }
        self.read_byte(self.pc);
        self.x = self.s;
        self.p.set_z_and_n(self.x);
    }

    /// TXA: copies X to A.
    #[verifier::spinoff_prover]
    #[verifier::rlimit(40)]
    pub fn txa(&mut self)
        requires
            old(self).room(7),
        ensures
            final(self).executed(*old(self), Op::Txa, AddressingMode::Implied),
    {
        proof {
            reveal(op_spec);
        }
        self.read_byte(self.pc);
        self.a = self.x;
        self.p.set_z_and_n(self.a);
    }

    /// TXS: copies X to the stack pointer.
    #[verifier::spinoff_prover]
    #[verifier::rlimit(40)]
    pub fn txs(&mut self)
        requires
            old(self).room(7),
        ensures
            final(self).executed(*old(self), Op::Txs, AddressingMode::Implied),
    {
        proof {
            reveal(op_spec);
        }
        self.read_byte(self.pc);
        self.s = self.x;
    }

    /// TYA: copies Y to A.
    #[verifier::spinoff_prover]
    #[verifier::rlimit(40)]
    pub fn tya(&mut self)
        requires
            old(self).room(7),
        ensures
            final(self).executed(*old(self), Op::Tya, AddressingMode::Implied),
    {
        proof {
            reveal(op_spec);
        }
        self.read_byte(self.pc);
        self.a = self.y;
        self.p.set_z_and_n(self.a);
    }

    /// NOP without an operand.
    #[verifier::spinoff_prover]
    #[verifier::rlimit(40)]
    pub fn nop_implied(&mut self)
        requires
            old(self).room(7),
        ensures
            final(self).executed(*old(self), Op::NopImplied, AddressingMode::Implied),
    {
        proof {
            reveal(op_spec);
        }
        self.read_byte(self.pc);
    }

    /// JAM: halts the processor on hardware; treated as a one byte NOP.
    #[verifier::spinoff_prover]
    #[verifier::rlimit(40)]
    pub fn jam(&mut self)
        requires
            old(self).room(7),
        ensures
            final(self).executed(*old(self), Op::Jam, AddressingMode::Implied),
    {
        proof {
            reveal(op_spec);
        }
        // Treat JAM as a one byte NOP.
        self.read_byte(self.pc);
    }

    /// ASL A: shifts the accumulator left.
    #[verifier::spinoff_prover]
    #[verifier::rlimit(40)]
    pub fn asl_accumulator(&mut self)
        requires
            old(self).room(7),
        ensures
            final(self).executed(*old(self), Op::AslA, AddressingMode::Accumulator),
    {
        proof {
            reveal(op_spec);
        }
        self.read_byte(self.pc);
        let carry = self.a & 0x80 != 0;
        proof {
            lemma_byte_ops(self.a, 0);
        }
        self.a = self.a << 1;

        self.p.set_c(carry);
        self.p.set_z_and_n(self.a);
    }

    /// LSR A: shifts the accumulator right.
    #[verifier::spinoff_prover]
    #[verifier::rlimit(40)]
    pub fn lsr_accumulator(&mut self)
        requires
            old(self).room(7),
        ensures
            final(self).executed(*old(self), Op::LsrA, AddressingMode::Accumulator),
    {
        proof {
            reveal(op_spec);
        }
        self.read_byte(self.pc);
        let carry = self.a & 0x01 != 0;
        proof {
            lemma_byte_ops(self.a, 0);
        }
        self.a = self.a >> 1;

        self.p.set_c(carry);
        self.p.set_z_and_n(self.a);
    }

    /// ROL A: rotates the accumulator left through the carry.
    #[verifier::spinoff_prover]
    #[verifier::rlimit(40)]
    pub fn rol_accumulator(&mut self)
        requires
            old(self).room(7),
        ensures
            final(self).executed(*old(self), Op::RolA, AddressingMode::Accumulator),
    {
        proof {
            reveal(op_spec);
        }
        self.read_byte(self.pc);
        let carry = self.a & 0x80 != 0;
        let c: u8 = if self.p.c() { 1 } else { 0 };
        proof {
            lemma_byte_ops(self.a, c);
        }
        self.a = ((self.a << 1) & 0xfe) | c;

        self.p.set_c(carry);
        self.p.set_z_and_n(self.a);
    }

    /// ROR A: rotates the accumulator right through the carry.
    #[verifier::spinoff_prover]
    #[verifier::rlimit(40)]
    pub fn ror_accumulator(&mut self)
        requires
            old(self).room(7),
        ensures
            final(self).executed(*old(self), Op::RorA, AddressingMode::Accumulator),
    {
        proof {
            reveal(op_spec);
        }
        self.read_byte(self.pc);
        let carry = self.a & 0x01 != 0;
        let c: u8 = if self.p.c() { 1 } else { 0 };
        proof {
            lemma_byte_ops(self.a, c);
        }
        self.a = (c << 7) | ((self.a >> 1) & 0x7f);

        self.p.set_c(carry);
        self.p.set_z_and_n(self.a);
    }
}

} // verus!
