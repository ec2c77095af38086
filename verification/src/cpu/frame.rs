//! Running the console until its picture unit completes a frame.
use vstd::prelude::*;

use super::mode::AddressingMode;
use super::semantics::{op_spec, Op};
use super::step::step_spec;
use super::trace::{Cycle, Latches, Regs};
use super::Cpu;
use crate::bus::DuNesBus;
use crate::ppu::Ppu;

verus! {

/// Every instruction makes at least one access after its opcode fetch.
pub(crate) proof fn lemma_op_accesses(op: Op, mode: AddressingMode, r: Regs, t: Seq<Cycle>, b: int)
    requires
        super::instr::valid_mode(op, mode),
    ensures
        op_spec(op, mode, r, t, b).n >= 1,
{
    reveal(op_spec);
}

/// A step makes at least two accesses.
pub proof fn lemma_step_accesses(r: Regs, l: Latches, t: Seq<Cycle>, b: int)
    ensures
        step_spec(r, l, t, b).n >= 2,
{
    let (op, mode) = super::decode::decode_for(r.variant, t[b].data);
    super::decode::lemma_decode_valid(r.variant, t[b].data);
    lemma_op_accesses(op, mode, Regs { pc: super::arith::inc16(r.pc), ..r }, t, b + 1);
}

/// Step `i` of the run `s` went from `s[i]` to `s[i + 1]`, with no frame
/// completed before it.
pub open spec fn run_step(s: Seq<Cpu<DuNesBus>>, i: int) -> bool {
    &&& s[i + 1].stepped(s[i])
    &&& !s[i].bus.ppu.is_frame_ready
}

/// `s` is a run of steps from `o`, none starting with a frame complete,
/// that ends with a frame complete (`done`) or without room for another
/// step, and `f` is its last processor with the mark cleared.
pub open spec fn frame_run(o: Cpu<DuNesBus>, f: Cpu<DuNesBus>, s: Seq<Cpu<DuNesBus>>, done: bool) -> bool {
    let l = s.last();
    &&& s.len() >= 1
    &&& s[0] == o
    &&& forall|i: int| 0 <= i < s.len() - 1 ==> #[trigger] run_step(s, i)
    &&& done == l.bus.ppu.is_frame_ready
    &&& !done ==> l.cycles + 8 > u64::MAX
    &&& f.regs() == l.regs()
    &&& f.latches() == l.latches()
    &&& f.trace() == l.trace()
    &&& f.cycles == l.cycles
    &&& f.pins == l.pins
    &&& f.bus.ram == l.bus.ram
    &&& f.bus.ppu == (Ppu { is_frame_ready: false, ..l.bus.ppu })
}

impl Cpu<DuNesBus> {
    /// Steps until the picture unit marks a frame complete, then clears the
    /// mark and returns `true`; returns `false`, with the frame not
    /// complete, when the cycle counter leaves no room for another step.
    /// The steps are those of a run `s` from the processor as it was: none
    /// starts with a frame complete, and the processor is the last of them,
    /// with the mark cleared.
    #[verifier::spinoff_prover]
    #[verifier::rlimit(60)]
    pub fn run_frame(&mut self) -> (done: bool)
        requires
            old(self).wf(),
        ensures
            final(self).wf(),
            exists|s: Seq<Cpu<DuNesBus>>| #[trigger] frame_run(*old(self), *final(self), s, done),
    {
        let ghost o = *self;
        let ghost mut s: Seq<Cpu<DuNesBus>> = seq![*self];
        while !self.bus.ppu.is_frame_ready && self.cycles <= u64::MAX - 8
            invariant
                self.wf(),
                s.len() >= 1,
                s[0] == o,
                forall|i: int| 0 <= i < s.len() - 1 ==> #[trigger] run_step(s, i),
                s.last() == *self,
            decreases u64::MAX - self.cycles,
        {
            let ghost prev = *self;
            self.step();
            proof {
                lemma_step_accesses(prev.regs(), prev.latches(), self.trace@, prev.trace@.len() as int);
                let s0 = s;
                s = s.push(*self);
                assert forall|i: int| 0 <= i < s.len() - 1 implies #[trigger] run_step(s, i) by {
                    if i < s0.len() - 1 {
                        assert(run_step(s0, i));
                    }
                }
            }
        }
        let done = self.bus.ppu.is_frame_ready;
        if done {
            self.bus.ppu.is_frame_ready = false;
            proof {
                // The mark was cleared from outside the bus: the history of
                // answered accesses starts again here.
                let n = self.trace@.len() as int;
                self.buses = Ghost(self.buses@.update(n, self.bus));
                self.bus_base = Ghost(n);
            }
        }
        assert(frame_run(o, *self, s, done));
        done
    }
}

} // verus!
