//! The 6502 processor.
//!
//! Every bus access the processor makes is recorded, in order, in a ghost
//! trace of [`Cycle`]s, beside the bus before and after each access; each
//! access is tied by [`Bus::read_rel`] or [`Bus::write_rel`] to the bus call
//! that answered it. The contracts of the processor state what each
//! instruction reads and writes, cycle by cycle, and how the registers change
//! as a function of the data the bus returned.
pub mod arith;
pub mod decode;
pub mod disasm;
pub mod flow;
pub mod frame;
pub mod instr;
pub mod laws;
pub mod matrix;
pub mod mode;
pub mod semantics;
pub mod status;
pub mod step;
pub mod trace;

use vstd::prelude::*;

use crate::bus::{Bus, Pins};
use arith::{add8, lemma_add8_dec, inc16, make_word, page_next, stack_addr, word};
use status::{flag, Status, I};
use trace::{accessed, lemma_poll_range_agree, poll, poll_range, rd, same_lines, wr, Cycle, Latches, Regs, Variant};

verus! {

/// The bus `b` answered the access `c` and became `n`.
pub open spec fn answered<B: Bus>(b: B, c: Cycle, n: B) -> bool {
    if c.write {
        b.write_rel(c.before, n, c.after)
    } else {
        b.read_rel(c.before, n, c.after)
    }
}

/// The pins `p` are those the last access of `t` left, and each access
/// handed the bus the interrupt lines that the access before it left.
#[verifier::opaque]
pub open spec fn pins_chained(p: Pins, t: Seq<Cycle>) -> bool {
    &&& t.len() > 0 ==> p == t.last().after
    &&& forall|k: int| 0 < k < t.len() ==> same_lines(#[trigger] t[k].before, t[k - 1].after)
}

/// The address of the non-maskable interrupt vector.
pub const NMI_VECTOR: u16 = 0xfffa;
/// The address of the reset vector.
pub const RESET_VECTOR: u16 = 0xfffc;
/// The address of the interrupt request vector.
pub const IRQ_VECTOR: u16 = 0xfffe;
/// The base address of the stack page.
pub const STACK_BASE: u16 = 0x0100;

/// The 6502 processor, connected to a bus of type `B`.
pub struct Cpu<B> {
    /// The accumulator.
    pub a: u8,
    /// The X index register.
    pub x: u8,
    /// The Y index register.
    pub y: u8,
    /// The program counter.
    pub pc: u16,
    /// The stack pointer.
    pub s: u8,
    /// The status register.
    pub p: Status,
    /// The pins used for the last bus access.
    pub pins: Pins,
    /// The instruction set variant the processor runs.
    pub variant: Variant,
    /// The number of bus accesses made so far.
    pub cycles: u64,
    /// Whether an interrupt request was pending one cycle before the last.
    pub prev_irq: bool,
    /// Whether an interrupt request was pending at the last cycle.
    pub irq: bool,
    /// The NMI line at the last cycle.
    pub prev_nmi: bool,
    /// Whether an NMI was raised one cycle before the last.
    pub prev_need_nmi: bool,
    /// Whether an NMI has been raised and not yet handled.
    pub need_nmi: bool,
    /// Whether a reset is pending.
    pub rst: bool,
    /// The bus.
    pub bus: B,
    /// Every bus access made so far, in order.
    pub trace: Ghost<Seq<Cycle>>,
    /// The bus before the first access and after each access since.
    pub buses: Ghost<Seq<B>>,
    /// The trace position from which every access was answered by the bus
    /// as the history records it; before it, the bus was last changed from
    /// outside the processor.
    pub bus_base: Ghost<int>,
    /// Latches from which the current ones follow by polling.
    pub base: Ghost<Latches>,
    /// The trace position at which [`Cpu::base`] held.
    pub base_len: Ghost<int>,
}

impl<B: Bus> Cpu<B> {
    /// The registers of the processor.
    pub open spec fn regs(&self) -> Regs {
        Regs {
            a: self.a,
            x: self.x,
            y: self.y,
            pc: self.pc,
            s: self.s,
            p: self.p.0,
            variant: self.variant,
        }
    }

    /// Every bus access made so far, in order.
    pub open spec fn trace(&self) -> Seq<Cycle> {
        self.trace@
    }

    /// The interrupt latches.
    pub open spec fn latches(&self) -> Latches {
        Latches {
            prev_irq: self.prev_irq,
            irq: self.irq,
            prev_nmi: self.prev_nmi,
            prev_need_nmi: self.prev_need_nmi,
            need_nmi: self.need_nmi,
            rst: self.rst,
        }
    }

    /// The buses before and after each access.
    pub open spec fn buses(&self) -> Seq<B> {
        self.buses@
    }

    /// The latches and the trace position from which the current latches are
    /// obtained by polling every later cycle.
    pub open spec fn latches_wf(&self) -> bool {
        &&& 0 <= self.base_len@ <= self.trace@.len()
        &&& self.latches() == poll_range(self.base@, self.trace@, self.base_len@, self.trace@.len() as int)
    }

    /// Each access of the trace from [`Cpu::bus_base`] on was answered by
    /// the bus, one after the other, and the last of them left the bus as
    /// `last`.
    pub open spec fn answered_all(&self, last: B) -> bool {
        &&& self.buses@.len() == self.trace@.len() + 1
        &&& self.buses@.last() == last
        &&& 0 <= self.bus_base@ <= self.trace@.len()
        &&& forall|k: int|
            self.bus_base@ <= k < self.trace@.len() ==> answered(
                self.buses@[k],
                #[trigger] self.trace@[k],
                self.buses@[k + 1],
            )
    }

    /// The trace position from which every access was answered by the bus.
    pub open spec fn bus_base(&self) -> int {
        self.bus_base@
    }

    /// The latches follow from the trace, every access of the trace was
    /// answered by the bus, which the last of them left as it is now, and
    /// the accesses pass the interrupt lines on from one to the next.
    pub open spec fn wf(&self) -> bool {
        &&& self.latches_wf()
        &&& self.answered_all(self.bus)
        &&& pins_chained(self.pins, self.trace@)
    }

    /// `self` holds the bus history of `prev`, extended.
    pub open spec fn kept_buses(&self, prev: Self) -> bool {
        &&& self.bus_base@ == prev.bus_base@
        &&& self.buses@.len() >= prev.buses@.len()
        &&& forall|k: int| 0 <= k < prev.buses@.len() ==> #[trigger] self.buses@[k] == prev.buses@[k]
    }

    /// The trace position from which the latches are obtained by polling.
    pub open spec fn base_len(&self) -> int {
        self.base_len@
    }

    /// The latches at [`Cpu::base_len`].
    pub open spec fn base(&self) -> Latches {
        self.base@
    }

    /// Creates a processor that performs a reset on its first step.
    pub fn new(bus: B) -> (cpu: Cpu<B>)
        ensures
            cpu.regs() == (Regs {
                a: 0,
                x: 0,
                y: 0,
                pc: 0,
                s: 0xfd,
                p: 0x24,
                variant: Variant::Debugger,
            }),
            cpu.pins == (Pins { address: 0, data: 0, irq: false, nmi: false, rst: false }),
            cpu.cycles == 0,
            cpu.bus == bus,
            cpu.trace() == Seq::<Cycle>::empty(),
            cpu.buses() == seq![bus],
            cpu.bus_base() == 0,
            cpu.latches() == (Latches {
                prev_irq: false,
                irq: false,
                prev_nmi: false,
                prev_need_nmi: false,
                need_nmi: false,
                rst: true,
            }),
            cpu.wf(),
    {
        let ghost l = Latches {
            prev_irq: false,
            irq: false,
            prev_nmi: false,
            prev_need_nmi: false,
            need_nmi: false,
            rst: true,
        };
        let ghost bs: Seq<B> = seq![bus];
        proof {
            reveal(pins_chained);
        }
        Cpu {
            a: 0,
            x: 0,
            y: 0,
            pc: 0,
            s: 0xfd,
            p: Status(0x24),
            pins: Pins::default(),
            variant: Variant::Debugger,
            cycles: 0,
            prev_irq: false,
            irq: false,
            prev_nmi: false,
            prev_need_nmi: false,
            need_nmi: false,
            rst: true,
            bus,
            trace: Ghost(Seq::empty()),
            buses: Ghost(bs),
            bus_base: Ghost(0),
            base: Ghost(l),
            base_len: Ghost(0),
        }
    }

    /// Drops a pending reset, for a system that schedules its resets itself.
    pub fn cancel_reset(&mut self)
        requires
            old(self).wf(),
        ensures
            final(self).latches() == (Latches { rst: false, ..old(self).latches() }),
            final(self).wf(),
            final(self).base_len() == final(self).trace().len(),
            final(self).regs() == old(self).regs(),
            final(self).trace() == old(self).trace(),
            final(self).pins == old(self).pins,
            final(self).cycles == old(self).cycles,
            final(self).bus == old(self).bus,
            final(self).buses() == old(self).buses(),
            final(self).bus_base() == old(self).bus_base(),
    {
        self.rst = false;
        proof {
            self.base = Ghost(self.latches());
            self.base_len = Ghost(self.trace@.len() as int);
        }
    }

    /// Records one access, which the bus `prev` answered, and updates the
    /// interrupt latches from the pins.
    fn poll_interrupts(&mut self, Ghost(c): Ghost<Cycle>, Ghost(prev): Ghost<B>)
        requires
            old(self).latches_wf(),
            old(self).answered_all(prev),
            answered(prev, c, old(self).bus),
            forall|k: int|
                0 < k < old(self).trace@.len() ==> same_lines(
                    #[trigger] old(self).trace@[k].before,
                    old(self).trace@[k - 1].after,
                ),
            old(self).trace@.len() > 0 ==> same_lines(c.before, old(self).trace@.last().after),
            c.after == old(self).pins,
            c.i == flag(old(self).p.0, I),
        ensures
            final(self).trace() == old(self).trace().push(c),
            final(self).buses() == old(self).buses().push(old(self).bus),
            final(self).bus_base() == old(self).bus_base(),
            final(self).latches() == poll(old(self).latches(), c),
            final(self).wf(),
            final(self).base() == old(self).base(),
            final(self).base_len() == old(self).base_len(),
            final(self).regs() == old(self).regs(),
            final(self).pins == old(self).pins,
            final(self).cycles == old(self).cycles,
            final(self).bus == old(self).bus,
    {
        proof {
            reveal(pins_chained);
            let t0 = self.trace@;
            let t1 = t0.push(c);
            lemma_poll_range_agree(self.base@, t0, t1, self.base_len@, t0.len() as int);
            self.trace = Ghost(t1);
            let b0 = self.buses@;
            let b1 = b0.push(self.bus);
            self.buses = Ghost(b1);
            assert forall|k: int| 0 < k < t1.len() implies same_lines(
                #[trigger] t1[k].before,
                t1[k - 1].after,
            ) by {
                if k < t0.len() {
                    assert(t1[k] == t0[k]);
                    assert(t1[k - 1] == t0[k - 1]);
                }
            }
            assert forall|k: int| self.bus_base@ <= k < t1.len() implies answered(
                b1[k],
                #[trigger] t1[k],
                b1[k + 1],
            ) by {
                if k < t0.len() {
                    assert(t0[k] == t1[k]);
                    assert(answered(b0[k], t0[k], b0[k + 1]));
                }
            }
        }
        // We need to track the previous status of the interrupt pins because
        // their statuses at the end of the second-to-last cycle determine if
        // the next instruction will be an interrupt.
        self.prev_irq = self.irq;
        self.irq = self.pins.irq && !self.p.i();

        self.prev_need_nmi = self.need_nmi;

        // An NMI is raised if the NMI pin goes from inactive during one cycle
        // to active during the next. The NMI stays raised until it's handled.
        if !self.prev_nmi && self.pins.nmi {
            self.need_nmi = true;
        }
        self.prev_nmi = self.pins.nmi;

        if !self.rst && self.pins.rst {
            self.rst = self.pins.rst;
        }
    }

    /// The processor has the well-formed latches and can make `n` more
    /// accesses without its cycle counter overflowing.
    pub open spec fn room(&self, n: int) -> bool {
        &&& self.wf()
        &&& self.cycles as int + n <= u64::MAX as int
    }

    /// `self` is `prev` after exactly `n` more bus accesses.
    pub open spec fn after(&self, prev: Self, n: int) -> bool {
        &&& n >= 0
        &&& accessed(prev.trace@, self.trace@, n)
        &&& self.cycles == prev.cycles + n
        &&& self.wf()
        &&& self.base@ == prev.base@
        &&& self.base_len@ == prev.base_len@
        &&& self.kept_buses(prev)
        &&& self.variant == prev.variant
        &&& n > 0 ==> self.pins == self.trace@.last().after
        &&& n == 0 ==> self.pins == prev.pins && self.bus == prev.bus
    }

    /// Reads the byte at `address`.
    pub fn read_byte(&mut self, address: u16) -> (data: u8)
        requires
            old(self).room(1),
        ensures
            final(self).after(*old(self), 1),
            rd(final(self).trace@[old(self).trace@.len() as int], address, flag(old(self).p.0, I)),
            final(self).trace@[old(self).trace@.len() as int].before == (Pins {
                address,
                ..old(self).pins
            }),
            data == final(self).trace@[old(self).trace@.len() as int].data,
            final(self).regs() == old(self).regs(),
    {
        self.cycles = self.cycles + 1;

        self.pins.address = address;
        let ghost before = self.pins;
        let ghost prev = self.bus;
        proof {
            reveal(pins_chained);
        }
        self.bus.read(&mut self.pins);

        let ghost c = Cycle {
            address,
            data: self.pins.data,
            write: false,
            i: flag(self.p.0, I),
            before,
            after: self.pins,
        };
        self.poll_interrupts(Ghost(c), Ghost(prev));

        self.pins.data
    }

    /// Writes `data` to `address`.
    pub fn write_byte(&mut self, address: u16, data: u8)
        requires
            old(self).room(1),
        ensures
            final(self).after(*old(self), 1),
            wr(final(self).trace@[old(self).trace@.len() as int], address, data, flag(old(self).p.0, I)),
            final(self).trace@[old(self).trace@.len() as int].before == (Pins {
                address,
                data,
                ..old(self).pins
            }),
            final(self).regs() == old(self).regs(),
    {
        self.cycles = self.cycles + 1;

        self.pins.address = address;
        self.pins.data = data;
        let ghost before = self.pins;
        let ghost prev = self.bus;
        proof {
            reveal(pins_chained);
        }
        self.bus.write(&mut self.pins);

        let ghost c = Cycle {
            address,
            data,
            write: true,
            i: flag(self.p.0, I),
            before,
            after: self.pins,
        };
        self.poll_interrupts(Ghost(c), Ghost(prev));
    }

    /// Reads the little-endian word at `address`.
    pub fn read_word(&mut self, address: u16) -> (w: u16)
        requires
            old(self).room(2),
        ensures
            final(self).after(*old(self), 2),
            ({
                let t = final(self).trace@;
                let b = old(self).trace@.len() as int;
                let i = flag(old(self).p.0, I);
                &&& rd(t[b], address, i)
                &&& rd(t[b + 1], inc16(address), i)
                &&& w == word(t[b].data, t[b + 1].data)
            }),
            final(self).regs() == old(self).regs(),
    {
        let low = self.read_byte(address);
        let high = self.read_byte(address.wrapping_add(1));
        make_word(low, high)
    }

    /// Reads the word at `address` the way indirect addressing does: the
    /// second byte comes from the same page as the first.
    pub fn read_word_bugged(&mut self, address: u16) -> (w: u16)
        requires
            old(self).room(2),
        ensures
            final(self).after(*old(self), 2),
            ({
                let t = final(self).trace@;
                let b = old(self).trace@.len() as int;
                let i = flag(old(self).p.0, I);
                &&& rd(t[b], address, i)
                &&& rd(t[b + 1], page_next(address), i)
                &&& w == word(t[b].data, t[b + 1].data)
            }),
            final(self).regs() == old(self).regs(),
    {
        let low = self.read_byte(address);
        // Indirect addressing modes are affected by a hardware bug where reads
        // that would cross a page instead wrap around in the same page.
        let high = self.read_byte((address / 256) * 256 + (address % 256 + 1) % 256);
        make_word(low, high)
    }

    /// Reads the byte at the program counter and advances it.
    pub fn consume_byte(&mut self) -> (data: u8)
        requires
            old(self).room(1),
        ensures
            final(self).after(*old(self), 1),
            rd(final(self).trace@[old(self).trace@.len() as int], old(self).pc, flag(old(self).p.0, I)),
            final(self).trace@[old(self).trace@.len() as int].before == (Pins {
                address: old(self).pc,
                ..old(self).pins
            }),
            data == final(self).trace@[old(self).trace@.len() as int].data,
            final(self).regs() == (Regs { pc: inc16(old(self).pc), ..old(self).regs() }),
    {
        let data = self.read_byte(self.pc);
        self.pc = self.pc.wrapping_add(1);
        data
    }

    /// Reads the word at the program counter and advances it past the word.
    pub fn consume_word(&mut self) -> (w: u16)
        requires
            old(self).room(2),
        ensures
            final(self).after(*old(self), 2),
            ({
                let t = final(self).trace@;
                let b = old(self).trace@.len() as int;
                let i = flag(old(self).p.0, I);
                &&& rd(t[b], old(self).pc, i)
                &&& rd(t[b + 1], inc16(old(self).pc), i)
                &&& w == word(t[b].data, t[b + 1].data)
            }),
            final(self).regs() == (Regs { pc: inc16(inc16(old(self).pc)), ..old(self).regs() }),
    {
        let data = self.read_word(self.pc);
        self.pc = self.pc.wrapping_add(2);
        data
    }

    /// Reads the top of the stack without popping it.
    pub fn peek(&mut self) -> (data: u8)
        requires
            old(self).room(1),
        ensures
            final(self).after(*old(self), 1),
            rd(final(self).trace@[old(self).trace@.len() as int], stack_addr(old(self).s), flag(old(self).p.0, I)),
            data == final(self).trace@[old(self).trace@.len() as int].data,
            final(self).regs() == old(self).regs(),
    {
        self.read_byte(STACK_BASE + self.s as u16)
    }

    /// Pushes `data` onto the stack.
    pub fn push(&mut self, data: u8)
        requires
            old(self).room(1),
        ensures
            final(self).after(*old(self), 1),
            wr(final(self).trace@[old(self).trace@.len() as int], stack_addr(old(self).s), data, flag(old(self).p.0, I)),
            final(self).regs() == (Regs { s: add8(old(self).s, -1), ..old(self).regs() }),
    {
        self.write_byte(STACK_BASE + self.s as u16, data);
        proof {
            lemma_add8_dec(self.s);
        }
        self.s = self.s.wrapping_sub(1);
    }

    /// Pops a byte off the stack.
    pub fn pop(&mut self) -> (data: u8)
        requires
            old(self).room(1),
        ensures
            final(self).after(*old(self), 1),
            rd(final(self).trace@[old(self).trace@.len() as int], stack_addr(add8(old(self).s, 1)), flag(old(self).p.0, I)),
            data == final(self).trace@[old(self).trace@.len() as int].data,
            final(self).regs() == (Regs { s: add8(old(self).s, 1), ..old(self).regs() }),
    {
        self.s = self.s.wrapping_add(1);
        self.read_byte(STACK_BASE + self.s as u16)
    }
}

} // verus!
