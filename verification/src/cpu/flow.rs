//! Branches, jumps, the stack instructions and interrupt sequences.
use vstd::prelude::*;

use super::arith::{add8, lemma_add8_add8, lemma_add8_dec, inc16, make_word, stack_addr, word};
use super::mode::AddressingMode;
use super::semantics::{branch_with, interrupt_spec, lo, hi, pushed_status, op_spec, pulled_p, Interrupt, Op};
use super::status::{flag, lemma_set_flag, set_flag, Status, B, I, U};
use super::trace::{rd, wr, Regs};
use super::{Cpu, IRQ_VECTOR, NMI_VECTOR, RESET_VECTOR};
use crate::bus::Bus;

verus! {

impl<B: Bus> Cpu<B> {
    /// Fetches a branch offset and takes the branch when `condition` holds.
    #[verifier::spinoff_prover]
    #[verifier::rlimit(40)]
    pub fn branch(&mut self, condition: bool)
        requires
            old(self).room(3),
        ensures
            ({
                let o = branch_with(condition, old(self).regs(), final(self).trace@, old(self).trace@.len() as int);
                &&& o.ok
                &&& final(self).after(*old(self), o.n)
                &&& final(self).regs() == o.regs
            }),
    {
        let ghost b = self.trace@.len() as int;
        let offset = self.consume_byte();
        if condition {
            let ghost t1 = self.trace@;
            self.read_byte(self.pc);
            let ghost t2 = self.trace@;

            let old_pc = self.pc;
            let offset16: u16 = if offset < 128 { offset as u16 } else { offset as u16 + 0xff00 };
            self.pc = self.pc.wrapping_add(offset16);
            assert(self.pc == super::semantics::branch_target(old_pc, offset));

            if old_pc / 256 != self.pc / 256 {
                self.read_byte(make_word(((old_pc % 256) as u8).wrapping_add(offset), (old_pc / 256) as u8));
            }
            proof {
                assert(self.trace@[b] == t1[b]);
                assert(self.trace@[b + 1] == t2[b + 1]);
            }
        }
    }

    /// BCC: branches when the carry is clear.
    #[verifier::spinoff_prover]
    #[verifier::rlimit(40)]
    pub fn bcc(&mut self)
        requires
            old(self).room(3),
        ensures
            final(self).executed(*old(self), Op::Bcc, AddressingMode::Relative),
    {
        proof {
            reveal(op_spec);
        }
        self.branch(!self.p.c());
    }

    /// BCS: branches when the carry is set.
    #[verifier::spinoff_prover]
    #[verifier::rlimit(40)]
    pub fn bcs(&mut self)
        requires
            old(self).room(3),
        ensures
            final(self).executed(*old(self), Op::Bcs, AddressingMode::Relative),
    {
        proof {
            reveal(op_spec);
        }
        self.branch(self.p.c());
    }

    /// BEQ: branches when the zero flag is set.
    #[verifier::spinoff_prover]
    #[verifier::rlimit(40)]
    pub fn beq(&mut self)
        requires
            old(self).room(3),
        ensures
            final(self).executed(*old(self), Op::Beq, AddressingMode::Relative),
    {
        proof {
            reveal(op_spec);
        }
        self.branch(self.p.z());
    }

    /// BMI: branches when the negative flag is set.
    #[verifier::spinoff_prover]
    #[verifier::rlimit(40)]
    pub fn bmi(&mut self)
        requires
            old(self).room(3),
        ensures
            final(self).executed(*old(self), Op::Bmi, AddressingMode::Relative),
    {
        proof {
            reveal(op_spec);
        }
        self.branch(self.p.n());
    }

    /// BNE: branches when the zero flag is clear.
    #[verifier::spinoff_prover]
    #[verifier::rlimit(40)]
    pub fn bne(&mut self)
        requires
            old(self).room(3),
        ensures
            final(self).executed(*old(self), Op::Bne, AddressingMode::Relative),
    {
        proof {
            reveal(op_spec);
        }
        self.branch(!self.p.z());
    }

    /// BPL: branches when the negative flag is clear.
    #[verifier::spinoff_prover]
    #[verifier::rlimit(40)]
    pub fn bpl(&mut self)
        requires
            old(self).room(3),
        ensures
            final(self).executed(*old(self), Op::Bpl, AddressingMode::Relative),
    {
        proof {
            reveal(op_spec);
        }
        self.branch(!self.p.n());
    }

    /// BVC: branches when the overflow flag is clear.
    #[verifier::spinoff_prover]
    #[verifier::rlimit(40)]
    pub fn bvc(&mut self)
        requires
            old(self).room(3),
        ensures
            final(self).executed(*old(self), Op::Bvc, AddressingMode::Relative),
    {
        proof {
            reveal(op_spec);
        }
        self.branch(!self.p.v());
    }

    /// BVS: branches when the overflow flag is set.
    #[verifier::spinoff_prover]
    #[verifier::rlimit(40)]
    pub fn bvs(&mut self)
        requires
            old(self).room(3),
        ensures
            final(self).executed(*old(self), Op::Bvs, AddressingMode::Relative),
    {
        proof {
            reveal(op_spec);
        }
        self.branch(self.p.v());
    }

    /// JMP: jumps to the effective address.
    #[verifier::spinoff_prover]
    #[verifier::rlimit(40)]
    pub fn jmp(&mut self, mode: AddressingMode)
        requires
            old(self).room(4),
            mode is Absolute || mode is Indirect,
        ensures
            final(self).executed(*old(self), Op::Jmp, mode),
    {
        proof {
            reveal(op_spec);
        }
        self.pc = self.effective_address(mode, false);
    }

    /// PHA: pushes the accumulator.
    #[verifier::spinoff_prover]
    #[verifier::rlimit(40)]
    pub fn pha(&mut self)
        requires
            old(self).room(2),
        ensures
            final(self).executed(*old(self), Op::Pha, AddressingMode::Implied),
    {
        proof {
            reveal(op_spec);
        }
        self.read_byte(self.pc);
        self.push(self.a);
    }

    /// PHP: pushes the status with the break and unused flags set.
    #[verifier::spinoff_prover]
    #[verifier::rlimit(40)]
    pub fn php(&mut self)
        requires
            old(self).room(2),
        ensures
            final(self).executed(*old(self), Op::Php, AddressingMode::Implied),
    {
        proof {
            reveal(op_spec);
        }
        self.read_byte(self.pc);
        self.push(self.p.with_b(true).with_u(true).0);
    }

    /// PLA: pulls the accumulator.
    #[verifier::spinoff_prover]
    #[verifier::rlimit(40)]
    pub fn pla(&mut self)
        requires
            old(self).room(3),
        ensures
            final(self).executed(*old(self), Op::Pla, AddressingMode::Implied),
    {
        proof {
            reveal(op_spec);
        }
        let ghost b = self.trace@.len() as int;
        self.read_byte(self.pc);
        let ghost t1 = self.trace@;
        self.peek();
        let ghost t2 = self.trace@;
        self.a = self.pop();
        proof {
            assert(self.trace@[b] == t1[b]);
            assert(self.trace@[b + 1] == t2[b + 1]);
        }

        self.p.set_z_and_n(self.a);
    }

    /// PLP: pulls the status; the break and unused flags keep their values.
    #[verifier::spinoff_prover]
    #[verifier::rlimit(40)]
    pub fn plp(&mut self)
        requires
            old(self).room(3),
        ensures
            final(self).executed(*old(self), Op::Plp, AddressingMode::Implied),
    {
        proof {
            reveal(op_spec);
        }
        let ghost b = self.trace@.len() as int;
        self.read_byte(self.pc);
        let ghost t1 = self.trace@;
        self.peek();
        let ghost t2 = self.trace@;
        let pulled = self.pop();
        proof {
            assert(self.trace@[b] == t1[b]);
            assert(self.trace@[b + 1] == t2[b + 1]);
        }
        self.p = Status::from(pulled).with_b(self.p.b()).with_u(self.p.u());
    }

    /// JSR: pushes the address of its last operand byte and jumps.
    #[verifier::spinoff_prover]
    #[verifier::rlimit(40)]
    pub fn jsr(&mut self)
        requires
            old(self).room(5),
        ensures
            final(self).executed(*old(self), Op::Jsr, AddressingMode::Absolute),
    {
        proof {
            reveal(op_spec);
        }
        let ghost b = self.trace@.len() as int;
        let pcl = self.consume_byte();
        let ghost t1 = self.trace@;
        self.peek();
        let ghost t2 = self.trace@;
        self.push((self.pc / 256) as u8);
        let ghost t3 = self.trace@;
        self.push((self.pc % 256) as u8);
        let ghost t4 = self.trace@;
        let pch = self.consume_byte();
        proof {
            lemma_add8_add8(old(self).s, -1, -1);
            assert(self.trace@[b] == t1[b]);
            assert(self.trace@[b + 1] == t2[b + 1]);
            assert(self.trace@[b + 2] == t3[b + 2]);
            assert(self.trace@[b + 3] == t4[b + 3]);
        }
        self.pc = make_word(pcl, pch);
    }

    /// Pulls a little-endian word off the stack.
    #[verifier::spinoff_prover]
    #[verifier::rlimit(40)]
    fn pull_word(&mut self) -> (w: u16)
        requires
            old(self).room(2),
        ensures
            ({
                let t = final(self).trace@;
                let b = old(self).trace@.len() as int;
                let i = flag(old(self).p.0, I);
                let sp = old(self).s;
                &&& rd(t[b], stack_addr(add8(sp, 1)), i)
                &&& rd(t[b + 1], stack_addr(add8(sp, 2)), i)
                &&& w == word(t[b].data, t[b + 1].data)
                &&& final(self).after(*old(self), 2)
                &&& final(self).regs() == (Regs { s: add8(sp, 2), ..old(self).regs() })
            }),
    {
        let ghost b = self.trace@.len() as int;
        let pcl = self.pop();
        let ghost t1 = self.trace@;
        let pch = self.pop();
        proof {
            lemma_add8_add8(old(self).s, 1, 1);
            assert(self.trace@[b] == t1[b]);
        }
        make_word(pcl, pch)
    }

    /// RTS: pulls a return address and continues after it.
    #[verifier::spinoff_prover]
    #[verifier::rlimit(100)]
    pub fn rts(&mut self)
        requires
            old(self).room(5),
        ensures
            final(self).executed(*old(self), Op::Rts, AddressingMode::Implied),
    {
        proof {
            reveal(op_spec);
        }
        let ghost b = self.trace@.len() as int;
        self.read_byte(self.pc);
        let ghost t1 = self.trace@;
        self.peek();
        let ghost t2 = self.trace@;
        self.pc = self.pull_word();
        let ghost t3 = self.trace@;
        self.read_byte(self.pc);
        proof {
            assert(self.trace@[b] == t1[b]);
            assert(self.trace@[b + 1] == t2[b + 1]);
            assert(self.trace@[b + 2] == t3[b + 2]);
            assert(self.trace@[b + 3] == t3[b + 3]);
        }
        let ghost target = self.pc;
        self.pc = self.pc.wrapping_add(1);
        proof {
            let t = self.trace@;
            let r = old(self).regs();
            let i = flag(r.p, I);
            let sp = r.s;
            assert(rd(t[b], r.pc, i));
            assert(rd(t[b + 1], stack_addr(sp), i));
            assert(rd(t[b + 2], stack_addr(add8(sp, 1)), i));
            assert(rd(t[b + 3], stack_addr(add8(sp, 2)), i));
            assert(target == word(t[b + 2].data, t[b + 3].data));
            assert(rd(t[b + 4], target, i));
            assert(self.pc == inc16(target));
            assert(self.after(*old(self), 5));
        }
    }

    /// RTI: pulls the status and then the program counter.
    #[verifier::spinoff_prover]
    #[verifier::rlimit(40)]
    pub fn rti(&mut self)
        requires
            old(self).room(5),
        ensures
            final(self).executed(*old(self), Op::Rti, AddressingMode::Implied),
    {
        proof {
            reveal(op_spec);
        }
        let ghost b = self.trace@.len() as int;
        self.read_byte(self.pc);
        let ghost t1 = self.trace@;
        self.peek();
        let ghost t2 = self.trace@;
        let pulled = self.pop();
        let ghost t3 = self.trace@;
        self.p = Status::from(pulled).with_b(self.p.b()).with_u(self.p.u());
        let pcl = self.pop();
        let ghost t4 = self.trace@;
        let pch = self.pop();
        proof {
            lemma_add8_add8(old(self).s, 1, 1);
            lemma_add8_add8(old(self).s, 2, 1);
            assert(self.trace@[b] == t1[b]);
            assert(self.trace@[b + 1] == t2[b + 1]);
            assert(self.trace@[b + 2] == t3[b + 2]);
            assert(self.trace@[b + 3] == t4[b + 3]);
        }
        self.pc = make_word(pcl, pch);
    }

    /// The stack cycles of an interrupt sequence: a reset reads three stack
    /// slots, the other sequences push the return address and the status.
    #[verifier::spinoff_prover]
    #[verifier::rlimit(40)]
    fn interrupt_stack(&mut self, kind: Interrupt)
        requires
            old(self).room(3),
        ensures
            ({
                let t = final(self).trace@;
                let b = old(self).trace@.len() as int;
                let r = old(self).regs();
                let i = flag(r.p, I);
                let sp = r.s;
                &&& final(self).after(*old(self), 3)
                &&& final(self).regs() == (Regs { s: add8(sp, -3), ..r })
                &&& if kind is Rst {
                    &&& rd(t[b], stack_addr(sp), i)
                    &&& rd(t[b + 1], stack_addr(add8(sp, -1)), i)
                    &&& rd(t[b + 2], stack_addr(add8(sp, -2)), i)
                } else {
                    &&& wr(t[b], stack_addr(sp), hi(r.pc), i)
                    &&& wr(t[b + 1], stack_addr(add8(sp, -1)), lo(r.pc), i)
                    &&& wr(t[b + 2], stack_addr(add8(sp, -2)), pushed_status(kind, r.p), i)
                }
            }),
    {
        let ghost b = self.trace@.len() as int;
        proof {
            lemma_add8_dec(old(self).s);
            lemma_add8_dec(add8(old(self).s, -1));
            lemma_add8_dec(add8(old(self).s, -2));
            lemma_add8_add8(old(self).s, -1, -1);
            lemma_add8_add8(old(self).s, -2, -1);
        }
        if kind == Interrupt::Rst {
            self.peek();
            let ghost t1 = self.trace@;
            self.s = self.s.wrapping_sub(1);
            self.peek();
            let ghost t2 = self.trace@;
            self.s = self.s.wrapping_sub(1);
            self.peek();
            self.s = self.s.wrapping_sub(1);
            proof {
                assert(self.trace@[b] == t1[b]);
                assert(self.trace@[b + 1] == t2[b + 1]);
            }
        } else {
            self.push((self.pc / 256) as u8);
            let ghost t1 = self.trace@;
            self.push((self.pc % 256) as u8);
            let ghost t2 = self.trace@;
            let pushed = if kind == Interrupt::Brk {
                self.p.with_b(true).0
            } else {
                self.p.0
            };
            self.push(pushed);
            proof {
                assert(self.trace@[b] == t1[b]);
                assert(self.trace@[b + 1] == t2[b + 1]);
            }
        }
    }

    /// Runs an interrupt sequence: BRK, IRQ, NMI or reset.
    #[verifier::spinoff_prover]
    #[verifier::rlimit(40)]
    pub fn interrupt(&mut self, kind: Interrupt)
        requires
            old(self).room(6),
        ensures
            ({
                let o = interrupt_spec(kind, old(self).regs(), final(self).trace@, old(self).trace@.len() as int);
                &&& o.ok
                &&& final(self).after(*old(self), o.n)
                &&& final(self).regs() == o.regs
            }),
    {
        let ghost b = self.trace@.len() as int;
        self.read_byte(self.pc);
        let ghost t1 = self.trace@;
        if kind == Interrupt::Brk {
            self.pc = self.pc.wrapping_add(1);
        }
        self.interrupt_stack(kind);
        let ghost t2 = self.trace@;

        // Interrupt hijacking is not modelled: the vector is fixed by `kind`.
        proof {
            lemma_set_flag(self.p.0, I, I, true);
        }
        self.p.set_i(true);
        let vector = match kind {
            Interrupt::Brk | Interrupt::Irq => IRQ_VECTOR,
            Interrupt::Nmi => NMI_VECTOR,
            Interrupt::Rst => RESET_VECTOR,
        };
        self.pc = self.read_word(vector);
        proof {
            assert(self.trace@[b] == t1[b]);
            assert(self.trace@[b + 1] == t2[b + 1]);
            assert(self.trace@[b + 2] == t2[b + 2]);
            assert(self.trace@[b + 3] == t2[b + 3]);
        }
    }

    /// BRK: runs the break sequence through the interrupt request vector.
    #[verifier::spinoff_prover]
    #[verifier::rlimit(40)]
    pub fn brk(&mut self)
        requires
            old(self).room(6),
        ensures
            final(self).executed(*old(self), Op::Brk, AddressingMode::Implied),
    {
        proof {
            reveal(op_spec);
        }
        self.interrupt(Interrupt::Brk);
    }
}

} // verus!
