//! The vocabulary in which the processor's contracts are stated.
use vstd::prelude::*;

use crate::bus::Pins;

verus! {

/// One bus access made by the processor.
#[derive(Clone, Copy)]
pub struct Cycle {
    /// The address the processor accessed.
    pub address: u16,
    /// For a read, the data the bus returned; for a write, the data written.
    pub data: u8,
    /// Whether the access was a write.
    pub write: bool,
    /// The interrupt disable flag when the interrupt lines were sampled.
    pub i: bool,
    /// The pins as the processor handed them to the bus.
    pub before: Pins,
    /// The pins as the bus left them.
    pub after: Pins,
}

/// The processor's internal interrupt state.
#[derive(Clone, Copy)]
pub struct Latches {
    /// Whether an interrupt request was pending one cycle before the last.
    pub prev_irq: bool,
    /// Whether an interrupt request was pending at the last cycle.
    pub irq: bool,
    /// The NMI line at the last cycle.
    pub prev_nmi: bool,
    /// Whether an NMI was raised one cycle before the last.
    pub prev_need_nmi: bool,
    /// Whether an NMI has been raised and not yet handled.
    pub need_nmi: bool,
    /// Whether a reset is pending.
    pub rst: bool,
}

/// The two instruction set variants: the debugger's processor, and the
/// emulator's, which decodes 0x93 and 0x9F with each other's addressing
/// modes and performs the unstable stores SHA, SHX, SHY and TAS by another
/// rule.
#[derive(Clone, Copy, PartialEq, Eq, Structural)]
pub enum Variant {
    Debugger,
    Emulator,
}

/// The registers of the processor, and the instruction set variant it runs.
pub struct Regs {
    pub a: u8,
    pub x: u8,
    pub y: u8,
    pub pc: u16,
    pub s: u8,
    pub p: u8,
    pub variant: Variant,
}

/// `a` and `b` carry the same interrupt lines.
pub open spec fn same_lines(a: Pins, b: Pins) -> bool {
    &&& a.irq == b.irq
    &&& a.nmi == b.nmi
    &&& a.rst == b.rst
}

/// The latches after sampling the interrupt lines at the end of cycle `c`.
pub open spec fn poll(l: Latches, c: Cycle) -> Latches {
    Latches {
        prev_irq: l.irq,
        irq: c.after.irq && !c.i,
        prev_nmi: c.after.nmi,
        prev_need_nmi: l.need_nmi,
        need_nmi: l.need_nmi || (!l.prev_nmi && c.after.nmi),
        rst: l.rst || c.after.rst,
    }
}

/// The latches after sampling at the end of each of the cycles `t[b..e]`,
/// starting from `l`.
pub open spec fn poll_range(l: Latches, t: Seq<Cycle>, b: int, e: int) -> Latches
    decreases e - b,
{
    if e <= b {
        l
    } else {
        poll(poll_range(l, t, b, e - 1), t[e - 1])
    }
}

/// Polling depends only on the cycles polled.
pub proof fn lemma_poll_range_agree(l: Latches, t: Seq<Cycle>, u: Seq<Cycle>, b: int, e: int)
    requires
        0 <= b,
        e <= t.len(),
        e <= u.len(),
        forall|k: int| b <= k < e ==> t[k] == u[k],
    ensures
        poll_range(l, t, b, e) == poll_range(l, u, b, e),
    decreases e - b,
{
    if e > b {
        lemma_poll_range_agree(l, t, u, b, e - 1);
    }
}

/// `u` is `t` followed by exactly `n` more cycles.
pub open spec fn accessed(t: Seq<Cycle>, u: Seq<Cycle>, n: int) -> bool {
    &&& u.len() == t.len() + n
    &&& forall|k: int| 0 <= k < t.len() ==> u[k] == t[k]
}

/// `c` is a read of `address`, sampled with interrupt disable flag `i`.
pub open spec fn rd(c: Cycle, address: u16, i: bool) -> bool {
    &&& !c.write
    &&& c.address == address
    &&& c.before.address == address
    &&& c.i == i
    &&& c.data == c.after.data
}

/// `c` is a write of `data` to `address`, sampled with interrupt disable
/// flag `i`.
pub open spec fn wr(c: Cycle, address: u16, data: u8, i: bool) -> bool {
    &&& c.write
    &&& c.address == address
    &&& c.before.address == address
    &&& c.before.data == data
    &&& c.data == data
    &&& c.i == i
}

/// The NMI is edge-triggered: polling raises it only where the line goes
/// from low to high. While the line stays high over the cycles `t[b..e]`,
/// after a cycle at which it was already high, no new NMI is raised: the
/// pending NMI stays as it was, and so does the one pending a cycle before
/// from the second cycle on.
pub proof fn lemma_nmi_once_per_edge(l: Latches, t: Seq<Cycle>, b: int, e: int)
    requires
        l.prev_nmi,
        b <= e,
        forall|k: int| b <= k < e ==> (#[trigger] t[k]).after.nmi,
    ensures
        poll_range(l, t, b, e).prev_nmi,
        poll_range(l, t, b, e).need_nmi == l.need_nmi,
        e > b ==> poll_range(l, t, b, e).prev_need_nmi == l.need_nmi,
    decreases e - b,
{
    if e > b {
        lemma_nmi_once_per_edge(l, t, b, e - 1);
        if e - 1 > b {
        } else {
            assert(poll_range(l, t, b, e - 1) == l);
        }
    }
}

} // verus!
