//! Running one instruction or interrupt sequence.
use vstd::prelude::*;

use super::arith::inc16;
use super::decode::{decode_for, decode_variant, is_read, is_rmw, is_store};
use super::instr::valid_mode;
use super::mode::AddressingMode;
use super::semantics::{interrupt_spec, is_read_op, is_rmw_op, is_store_op, op_spec, Interrupt, Op};
use super::status::{flag, I};
use super::trace::{accessed, poll_range, rd, same_lines, Latches, Regs};
use super::Cpu;
use crate::bus::Bus;

verus! {

/// The interrupt sequence a step starts with, if any: a pending reset comes
/// first, then an NMI, then an interrupt request.
pub open spec fn pending_interrupt(l: Latches) -> Option<Interrupt> {
    if l.rst {
        Some(Interrupt::Rst)
    } else if l.prev_need_nmi {
        Some(Interrupt::Nmi)
    } else if l.prev_irq {
        Some(Interrupt::Irq)
    } else {
        None
    }
}

/// The latches once the interrupt a step starts with has been acknowledged.
pub open spec fn acknowledged(l: Latches) -> Latches {
    if l.rst {
        Latches { rst: false, ..l }
    } else if l.prev_need_nmi {
        Latches { need_nmi: false, ..l }
    } else {
        l
    }
}

/// The cycles and effect of one step from registers `r` and latches `l`,
/// read from `t` starting at `b`: an interrupt sequence after a dummy read of
/// the program counter, or the fetch of an opcode and its instruction.
pub open spec fn step_spec(r: Regs, l: Latches, t: Seq<super::trace::Cycle>, b: int) -> super::semantics::Outcome {
    let i = flag(r.p, I);
    match pending_interrupt(l) {
        Some(kind) => {
            let o = interrupt_spec(kind, r, t, b + 1);
            super::semantics::Outcome { ok: rd(t[b], r.pc, i) && o.ok, n: 1 + o.n, regs: o.regs }
        },
        None => {
            let (op, mode) = decode_for(r.variant, t[b].data);
            let o = op_spec(op, mode, Regs { pc: inc16(r.pc), ..r }, t, b + 1);
            super::semantics::Outcome { ok: rd(t[b], r.pc, i) && o.ok, n: 1 + o.n, regs: o.regs }
        },
    }
}

impl<B: Bus> Cpu<B> {
    fn execute_read_a(&mut self, op: Op, mode: AddressingMode)
        requires
            old(self).room(7),
            valid_mode(op, mode),
            is_read_op(op),
            op is Adc || op is Alr || op is Anc || op is And || op is Ane || op is Arr || op is Bit || op is Cmp || op is Cpx || op is Cpy || op is Eor,
        ensures
            final(self).executed(*old(self), op, mode),
    {
        match op {
            Op::Adc => self.adc(mode),
            Op::Alr => self.alr(mode),
            Op::Anc => self.anc(mode),
            Op::And => self.and(mode),
            Op::Ane => self.ane(mode),
            Op::Arr => self.arr(mode),
            Op::Bit => self.bit(mode),
            Op::Cmp => self.cmp(mode),
            Op::Cpx => self.cpx(mode),
            Op::Cpy => self.cpy(mode),
            Op::Eor => self.eor(mode),
            _ => {},
        }
    }

    fn execute_read_b(&mut self, op: Op, mode: AddressingMode)
        requires
            old(self).room(7),
            valid_mode(op, mode),
            is_read_op(op),
            op is Las || op is Lax || op is Lda || op is Ldx || op is Ldy || op is Lxa || op is Nop || op is Ora || op is Sbc || op is Sbx,
        ensures
            final(self).executed(*old(self), op, mode),
    {
        match op {
            Op::Las => self.las(mode),
            Op::Lax => self.lax(mode),
            Op::Lda => self.lda(mode),
            Op::Ldx => self.ldx(mode),
            Op::Ldy => self.ldy(mode),
            Op::Lxa => self.lxa(mode),
            Op::Nop => self.nop(mode),
            Op::Ora => self.ora(mode),
            Op::Sbc => self.sbc(mode),
            Op::Sbx => self.sbx(mode),
            _ => {},
        }
    }

    fn execute_read(&mut self, op: Op, mode: AddressingMode)
        requires
            old(self).room(7),
            valid_mode(op, mode),
            is_read_op(op),
        ensures
            final(self).executed(*old(self), op, mode),
    {
        match op {
            Op::Adc | Op::Alr | Op::Anc | Op::And | Op::Ane | Op::Arr | Op::Bit | Op::Cmp | Op::Cpx | Op::Cpy | Op::Eor => self.execute_read_a(op, mode),
            _ => self.execute_read_b(op, mode),
        }
    }

    fn execute_rmw(&mut self, op: Op, mode: AddressingMode)
        requires
            old(self).room(7),
            valid_mode(op, mode),
            is_rmw_op(op),
        ensures
            final(self).executed(*old(self), op, mode),
    {
        match op {
            Op::Asl => self.asl(mode),
            Op::Dcp => self.dcp(mode),
            Op::Dec => self.dec(mode),
            Op::Inc => self.inc(mode),
            Op::Isb => self.isb(mode),
            Op::Lsr => self.lsr(mode),
            Op::Rla => self.rla(mode),
            Op::Rol => self.rol(mode),
            Op::Ror => self.ror(mode),
            Op::Rra => self.rra(mode),
            Op::Slo => self.slo(mode),
            Op::Sre => self.sre(mode),
            _ => {},
        }
    }

    fn execute_store(&mut self, op: Op, mode: AddressingMode)
        requires
            old(self).room(7),
            valid_mode(op, mode),
            is_store_op(op),
        ensures
            final(self).executed(*old(self), op, mode),
    {
        match op {
            Op::Sax => self.sax(mode),
            Op::Sha => self.sha(mode),
            Op::Shx => self.shx(mode),
            Op::Shy => self.shy(mode),
            Op::Sta => self.sta(mode),
            Op::Stx => self.stx(mode),
            Op::Sty => self.sty(mode),
            Op::Tas => self.tas(mode),
            _ => {},
        }
    }

    fn execute_other(&mut self, op: Op, mode: AddressingMode)
        requires
            old(self).room(7),
            valid_mode(op, mode),
            !is_read_op(op) && !is_rmw_op(op) && !is_store_op(op),
        ensures
            final(self).executed(*old(self), op, mode),
    {
        match op {
            Op::AslA => self.asl_accumulator(),
            Op::Bcc => self.bcc(),
            Op::Bcs => self.bcs(),
            Op::Beq => self.beq(),
            Op::Bmi => self.bmi(),
            Op::Bne => self.bne(),
            Op::Bpl => self.bpl(),
            Op::Brk => self.brk(),
            Op::Bvc => self.bvc(),
            Op::Bvs => self.bvs(),
            Op::Clc => self.clc(),
            Op::Cld => self.cld(),
            Op::Cli => self.cli(),
            Op::Clv => self.clv(),
            Op::Dex => self.dex(),
            Op::Dey => self.dey(),
            Op::Inx => self.inx(),
            Op::Iny => self.iny(),
            Op::Jam => self.jam(),
            Op::Jmp => self.jmp(mode),
            Op::Jsr => self.jsr(),
            Op::LsrA => self.lsr_accumulator(),
            Op::NopImplied => self.nop_implied(),
            Op::Pha => self.pha(),
            Op::Php => self.php(),
            Op::Pla => self.pla(),
            Op::Plp => self.plp(),
            Op::RolA => self.rol_accumulator(),
            Op::RorA => self.ror_accumulator(),
            Op::Rti => self.rti(),
            Op::Rts => self.rts(),
            Op::Sec => self.sec(),
            Op::Sed => self.sed(),
            Op::Sei => self.sei(),
            Op::Tax => self.tax(),
            Op::Tay => self.tay(),
            Op::Tsx => self.tsx(),
            Op::Txa => self.txa(),
            Op::Txs => self.txs(),
            Op::Tya => self.tya(),
            _ => {},
        }
    }

    /// Runs instruction `op` in mode `mode`, its opcode already fetched.
    pub fn execute(&mut self, op: Op, mode: AddressingMode)
        requires
            old(self).room(7),
            valid_mode(op, mode),
        ensures
            final(self).executed(*old(self), op, mode),
    {
        if is_read(op) {
            self.execute_read(op, mode);
        } else if is_rmw(op) {
            self.execute_rmw(op, mode);
        } else if is_store(op) {
            self.execute_store(op, mode);
        } else {
            self.execute_other(op, mode);
        }
    }

    /// `self` is `prev` after one step.
    pub open spec fn stepped(&self, prev: Self) -> bool {
        let b = prev.trace@.len() as int;
        let o = step_spec(prev.regs(), prev.latches(), self.trace@, b);
        &&& o.ok
        &&& accessed(prev.trace@, self.trace@, o.n)
        &&& self.cycles == prev.cycles + o.n
        &&& self.pins == self.trace@.last().after
        &&& self.regs() == o.regs
        &&& self.wf()
        &&& self.kept_buses(prev)
        &&& self.variant == prev.variant
        &&& same_lines(self.trace@[b].before, prev.pins)
        &&& self.latches() == poll_range(acknowledged(prev.latches()), self.trace@, b, self.trace@.len() as int)
    }

    /// Runs one instruction, or the interrupt sequence that is pending.
    pub fn step(&mut self)
        requires
            old(self).room(8),
        ensures
            final(self).stepped(*old(self)),
    {
        let ghost b = self.trace@.len() as int;
        let ghost p0 = self.pins;
        let pending = self.rst || self.prev_need_nmi || self.prev_irq;
        let kind = if self.rst {
            // A reset keeps the registers other than S, P and PC.
            self.rst = false;
            Interrupt::Rst
        } else if self.prev_need_nmi {
            self.need_nmi = false;
            Interrupt::Nmi
        } else {
            Interrupt::Irq
        };
        proof {
            self.base = Ghost(self.latches());
            self.base_len = Ghost(b);
        }
        if pending {
            self.read_byte(self.pc);
            let ghost t1 = self.trace@;
            assert(same_lines(t1[b].before, p0));
            self.interrupt(kind);
            proof {
                assert(self.trace@[b] == t1[b]);
            }
        } else {
            let opcode = self.consume_byte();
            let ghost t1 = self.trace@;
            assert(same_lines(t1[b].before, p0));
            let (op, mode) = decode_variant(self.variant, opcode);
            self.execute(op, mode);
            proof {
                assert(self.trace@[b] == t1[b]);
                let t = self.trace@;
                if t.len() == t1.len() {
                    assert(t[t.len() - 1] == t1[t1.len() - 1]);
                }
            }
        }
    }
}

} // verus!
