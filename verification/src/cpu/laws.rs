//! Laws of the instruction semantics: what the flags mean arithmetically.
use vstd::prelude::*;

use super::arith::{add8, inc16, lemma_add8_add8, signed, stack_addr, word};
use super::decode::{decode_for, decode_spec};
use super::mode::AddressingMode;
use super::semantics::{adc_regs, bit, branch_taken, compare_p, implied_effect, hi, lo, is_read_op, op_spec, pulled_p, read_effect, rmw_value, shift_carry, Interrupt, Op, Outcome};
use super::frame::lemma_op_accesses;
use super::step::{acknowledged, pending_interrupt};
use super::status::{flag, is_negative, lemma_set_flag, set_flag, set_zn, B, C, D, I, N, U, V, Z};
use super::trace::{lemma_nmi_once_per_edge, poll_range, rd, same_lines, wr, Cycle, Latches, Regs};
use super::{answered, pins_chained, Cpu};
use crate::bus::{Bus, Pins, RamBus};

verus! {

/// The flags of `p` after setting carry, zero, overflow and negative in
/// turn.
proof fn lemma_four_flags(p: u8, c: bool, z: bool, v: bool, n: bool)
    ensures
        ({
            let q = set_flag(set_flag(set_flag(set_flag(p, C, c), Z, z), V, v), N, n);
            &&& flag(q, C) == c
            &&& flag(q, Z) == z
            &&& flag(q, V) == v
            &&& flag(q, N) == n
        }),
{
    let p1 = set_flag(p, C, c);
    let p2 = set_flag(p1, Z, z);
    let p3 = set_flag(p2, V, v);
    lemma_set_flag(p, C, C, c);
    lemma_set_flag(p1, Z, C, z);
    lemma_set_flag(p1, Z, Z, z);
    lemma_set_flag(p2, V, C, v);
    lemma_set_flag(p2, V, Z, v);
    lemma_set_flag(p2, V, V, v);
    lemma_set_flag(p3, N, C, n);
    lemma_set_flag(p3, N, Z, n);
    lemma_set_flag(p3, N, V, n);
    lemma_set_flag(p3, N, N, n);
}

/// ADC adds the operand and the carry to the accumulator: the new
/// accumulator and carry hold the unsigned sum, the overflow flag tells
/// whether the signed sum left -128..127, and the zero and negative flags
/// describe the new accumulator.
pub proof fn lemma_adc(r: Regs, m: u8)
    ensures
        ({
            let o = adc_regs(r, m);
            let c = bit(flag(r.p, C));
            &&& o.a + 256 * bit(flag(o.p, C)) == r.a + m + c
            &&& flag(o.p, V) == !(-128 <= signed(r.a) + signed(m) + c <= 127)
            &&& flag(o.p, Z) == (o.a == 0)
            &&& flag(o.p, N) == is_negative(o.a)
            &&& signed(o.a) == if flag(o.p, V) {
                if signed(r.a) + signed(m) + c > 127 {
                    signed(r.a) + signed(m) + c - 256
                } else {
                    signed(r.a) + signed(m) + c + 256
                }
            } else {
                signed(r.a) + signed(m) + c
            }
        }),
{
    let c = bit(flag(r.p, C));
    let sum = r.a as int + m as int + c;
    let a = (sum % 256) as u8;
    lemma_four_flags(
        r.p,
        sum > 255,
        a == 0,
        is_negative(r.a) == is_negative(m) && is_negative(a) != is_negative(r.a),
        is_negative(a),
    );
}

/// SBC subtracts the operand and the borrow (the clear carry) from the
/// accumulator: the new accumulator is the difference modulo 256, the carry
/// tells whether no borrow was needed, and the overflow flag whether the
/// signed difference left -128..127.
pub proof fn lemma_sbc(r: Regs, m: u8)
    ensures
        ({
            let o = read_effect(Op::Sbc, r, m);
            let borrow = 1 - bit(flag(r.p, C));
            let d = r.a - m - borrow;
            &&& o.a == if d >= 0 { d } else { d + 256 }
            &&& flag(o.p, C) == (d >= 0)
            &&& flag(o.p, V) == !(-128 <= signed(r.a) - signed(m) - borrow <= 127)
            &&& flag(o.p, Z) == (o.a == 0)
            &&& flag(o.p, N) == is_negative(o.a)
        }),
{
    lemma_adc(r, (255 - m) as u8);
}

/// SBC of an operand is ADC of its complement: the two leave the same
/// registers.
pub proof fn lemma_sbc_is_adc_of_complement(r: Regs, m: u8)
    ensures
        read_effect(Op::Sbc, r, m) == read_effect(Op::Adc, r, m ^ 0xff),
{
    assert(m ^ 0xff == (255 - m) as u8) by (bit_vector);
}

/// A comparison sets the carry when the register is at least the operand,
/// the zero flag when they are equal, and the negative flag from bit 7 of
/// their difference; the other flags stay.
pub proof fn lemma_compare(p: u8, reg: u8, m: u8)
    ensures
        flag(compare_p(p, reg, m), C) == (reg >= m),
        flag(compare_p(p, reg, m), Z) == (reg == m),
        flag(compare_p(p, reg, m), N) == is_negative(add8(reg, -(m as int))),
        flag(compare_p(p, reg, m), V) == flag(p, V),
{
    let p1 = set_flag(p, C, reg >= m);
    let d = add8(reg, -(m as int));
    let p2 = set_flag(p1, Z, d == 0);
    lemma_set_flag(p, C, C, reg >= m);
    lemma_set_flag(p, C, V, reg >= m);
    lemma_set_flag(p1, Z, C, d == 0);
    lemma_set_flag(p1, Z, Z, d == 0);
    lemma_set_flag(p1, Z, V, d == 0);
    lemma_set_flag(p2, N, C, is_negative(d));
    lemma_set_flag(p2, N, Z, is_negative(d));
    lemma_set_flag(p2, N, N, is_negative(d));
    lemma_set_flag(p2, N, V, is_negative(d));
}

/// A pull reads the stack slot that the last push wrote, and leaves the
/// stack pointer where it was before the push.
pub proof fn lemma_push_pull(s: u8)
    ensures
        add8(add8(s, -1), 1) == s,
        stack_addr(add8(add8(s, -1), 1)) == stack_addr(s),
{
    super::arith::lemma_add8_add8(s, -1, 1);
    assert(add8(s, 0) == s);
}

/// The bytes `m` after the writes among the accesses `t[b..e]`, in order.
pub open spec fn memory_after(m: Seq<u8>, t: Seq<Cycle>, b: int, e: int) -> Seq<u8>
    decreases e - b,
{
    if e <= b {
        m
    } else {
        let p = memory_after(m, t, b, e - 1);
        let c = t[e - 1];
        if c.write && (c.before.address as int) < p.len() {
            p.update(c.before.address as int, c.before.data)
        } else {
            p
        }
    }
}

/// The byte at `address` of `m`, or 0 past its end.
pub open spec fn byte_of(m: Seq<u8>, address: u16) -> u8 {
    if (address as int) < m.len() {
        m[address as int]
    } else {
        0
    }
}

/// On a flat memory, the processor's accesses behave as memory: from the
/// bus held before access `b` (one the bus answered), the memory before access `e` is that memory
/// with the writes of the accesses in between applied in order, and each
/// read gives the byte the memory held at its address at that moment.
pub proof fn lemma_flat_memory(cpu: Cpu<RamBus>, b: int, e: int)
    requires
        cpu.wf(),
        cpu.bus_base() <= b <= e <= cpu.trace().len(),
    ensures
        cpu.buses()[e].memory@ == memory_after(cpu.buses()[b].memory@, cpu.trace(), b, e),
        e < cpu.trace().len() && !cpu.trace()[e].write ==> cpu.trace()[e].after.data == byte_of(
            memory_after(cpu.buses()[b].memory@, cpu.trace(), b, e),
            cpu.trace()[e].before.address,
        ),
        e == cpu.trace().len() ==> cpu.bus.memory@ == memory_after(
            cpu.buses()[b].memory@,
            cpu.trace(),
            b,
            e,
        ),
    decreases e - b,
{
    let t = cpu.trace();
    let bs = cpu.buses();
    if e > b {
        lemma_flat_memory(cpu, b, e - 1);
        assert(answered(bs[e - 1], t[e - 1], bs[e]));
    }
    if e < t.len() {
        assert(answered(bs[e], t[e], bs[e + 1]));
    }
}

/// No interrupt is pending or on its way: no reset, no NMI raised, no
/// interrupt request seen.
pub open spec fn quiet(l: Latches) -> bool {
    &&& !l.rst
    &&& !l.need_nmi
    &&& !l.prev_need_nmi
    &&& !l.prev_irq
    &&& !l.irq
}

/// The pins hold every interrupt line low.
pub open spec fn lines_low(p: Pins) -> bool {
    &&& !p.irq
    &&& !p.nmi
    &&& !p.rst
}

/// Polling cycles whose interrupt lines are all low keeps quiet latches
/// quiet.
pub proof fn lemma_quiet_polls(l: Latches, t: Seq<Cycle>, b: int, e: int)
    requires
        quiet(l),
        forall|k: int| b <= k < e ==> lines_low(#[trigger] t[k].after),
    ensures
        quiet(poll_range(l, t, b, e)),
    decreases e - b,
{
    if e > b {
        lemma_quiet_polls(l, t, b, e - 1);
        assert(lines_low(t[e - 1].after));
    }
}

/// A flat memory passes the interrupt lines through unchanged, so from
/// access `b` on, handed low lines, every access leaves them low.
pub proof fn lemma_flat_lines(cpu: Cpu<RamBus>, p: Pins, b: int, e: int)
    requires
        cpu.wf(),
        cpu.bus_base() <= b <= e <= cpu.trace().len(),
        b < cpu.trace().len() ==> same_lines(cpu.trace()[b].before, p),
        lines_low(p),
    ensures
        forall|k: int| b <= k < e ==> lines_low(#[trigger] cpu.trace()[k].after),
    decreases e - b,
{
    let t = cpu.trace();
    if e > b {
        lemma_flat_lines(cpu, p, b, e - 1);
        reveal(pins_chained);
        let k = e - 1;
        assert(answered(cpu.buses()[k], t[k], cpu.buses()[k + 1]));
        if k > b {
            assert(same_lines(t[k].before, t[k - 1].after));
            assert(lines_low(t[k - 1].after));
        }
        assert(lines_low(t[k].before));
    }
}

/// Two steps on a flat memory from quiet latches with the interrupt lines
/// low take no interrupt.
proof fn lemma_two_quiet_steps(c0: Cpu<RamBus>, c1: Cpu<RamBus>, c2: Cpu<RamBus>)
    requires
        c0.wf(),
        c1.stepped(c0),
        c2.stepped(c1),
        quiet(c0.latches()),
        lines_low(c0.pins),
    ensures
        pending_interrupt(c0.latches()) is None,
        pending_interrupt(c1.latches()) is None,
        quiet(c2.latches()),
{
    let b0 = c0.trace@.len() as int;
    let b1 = c1.trace@.len() as int;
    let t = c2.trace@;
    super::frame::lemma_step_accesses(c0.regs(), c0.latches(), c1.trace@, b0);
    super::frame::lemma_step_accesses(c1.regs(), c1.latches(), t, b1);
    assert(t[b0] == c1.trace@[b0]);
    assert(c2.bus_base() == c0.bus_base());
    lemma_flat_lines(c2, c0.pins, b0, t.len() as int);
    assert forall|k: int| b0 <= k < b1 implies lines_low(#[trigger] c1.trace@[k].after) by {
        assert(t[k] == c1.trace@[k]);
    }
    assert(acknowledged(c0.latches()) == c0.latches());
    lemma_quiet_polls(c0.latches(), c1.trace@, b0, b1);
    assert(acknowledged(c1.latches()) == c1.latches());
    lemma_quiet_polls(c1.latches(), t, b1, t.len() as int);
}

/// The opcodes of JSR and RTS.
proof fn lemma_decode_jsr_rts()
    ensures
        decode_spec(0x20) == (Op::Jsr, AddressingMode::Absolute),
        decode_spec(0x60) == (Op::Rts, AddressingMode::Implied),
{
    reveal(decode_spec);
}

/// The cycles and effect of JSR and RTS.
proof fn lemma_jsr_rts_spec(r: Regs, t: Seq<Cycle>, b: int)
    ensures
        op_spec(Op::Jsr, AddressingMode::Absolute, r, t, b) == ({
            let i = super::status::flag(r.p, super::status::I);
            let ret = inc16(r.pc);
            Outcome {
                ok: rd(t[b], r.pc, i) && rd(t[b + 1], stack_addr(r.s), i) && wr(
                    t[b + 2],
                    stack_addr(r.s),
                    hi(ret),
                    i,
                ) && wr(t[b + 3], stack_addr(add8(r.s, -1)), lo(ret), i) && rd(t[b + 4], ret, i),
                n: 5,
                regs: Regs { pc: word(t[b].data, t[b + 4].data), s: add8(r.s, -2), ..r },
            }
        }),
        op_spec(Op::Rts, AddressingMode::Implied, r, t, b) == ({
            let i = super::status::flag(r.p, super::status::I);
            let target = word(t[b + 2].data, t[b + 3].data);
            Outcome {
                ok: rd(t[b], r.pc, i) && rd(t[b + 1], stack_addr(r.s), i) && rd(
                    t[b + 2],
                    stack_addr(add8(r.s, 1)),
                    i,
                ) && rd(t[b + 3], stack_addr(add8(r.s, 2)), i) && rd(t[b + 4], target, i),
                n: 5,
                regs: Regs { pc: inc16(target), s: add8(r.s, 2), ..r },
            }
        }),
{
    reveal(op_spec);
}

/// The target of the JSR at `pc` in the memory `m`.
pub open spec fn jsr_target(m: Seq<u8>, pc: u16) -> u16 {
    word(byte_of(m, inc16(pc)), byte_of(m, inc16(inc16(pc))))
}

/// The memory `m` with the return address of a JSR at `pc` pushed at stack
/// slot `s`, high byte first.
pub open spec fn pushed_return(m: Seq<u8>, pc: u16, s: u8) -> Seq<u8> {
    let ret = inc16(inc16(pc));
    m.update(stack_addr(s) as int, hi(ret)).update(stack_addr(add8(s, -1)) as int, lo(ret))
}

/// The conditions of [`lemma_jsr_rts`] on the memory and the registers.
pub open spec fn jsr_rts_setup(m: Seq<u8>, pc: u16, s: u8) -> bool {
    let target = jsr_target(m, pc);
    &&& m.len() == 0x10000
    &&& byte_of(m, pc) == 0x20
    &&& byte_of(m, target) == 0x60
    &&& stack_addr(s) != target
    &&& stack_addr(add8(s, -1)) != target
    &&& stack_addr(s) != inc16(inc16(pc))
    &&& stack_addr(add8(s, -1)) != inc16(inc16(pc))
}

/// The JSR half: the step calls the target and pushes the return address.
proof fn lemma_jsr_half(c0: Cpu<RamBus>, c1: Cpu<RamBus>, c2: Cpu<RamBus>)
    requires
        c0.wf(),
        c1.stepped(c0),
        c2.kept_buses(c1),
        c2.wf(),
        super::trace::accessed(c1.trace@, c2.trace@, c2.trace@.len() - c1.trace@.len()),
        pending_interrupt(c0.latches()) is None,
        jsr_rts_setup(c0.bus.memory@, c0.pc, c0.s),
    ensures
        c1.trace@.len() == c0.trace@.len() + 6,
        c1.regs() == (Regs { pc: jsr_target(c0.bus.memory@, c0.pc), s: add8(c0.s, -2), ..c0.regs() }),
        memory_after(c0.bus.memory@, c2.trace@, c0.trace@.len() as int, c1.trace@.len() as int)
            == pushed_return(c0.bus.memory@, c0.pc, c0.s),
        c2.buses()[c0.trace@.len() as int] == c0.bus,
{
    lemma_decode_jsr_rts();
    let m = c0.bus.memory@;
    let pc = c0.pc;
    let s = c0.s;
    let b0 = c0.trace@.len() as int;
    let t = c2.trace@;
    let ret = inc16(inc16(pc));
    assert(c2.buses()[b0] == c0.bus);
    assert forall|k: int| 0 <= k < c1.trace@.len() implies #[trigger] t[k] == c1.trace@[k] by {}
    let (op0, mode0) = decode_for(c0.variant, c1.trace@[b0].data);
    super::decode::lemma_decode_valid(c0.variant, c1.trace@[b0].data);
    lemma_op_accesses(op0, mode0, super::trace::Regs { pc: inc16(pc), ..c0.regs() }, c1.trace@, b0 + 1);
    assert(c1.trace@.len() > b0);
    lemma_flat_memory(c2, b0, b0);
    assert(t[b0].data == 0x20);
    lemma_jsr_rts_spec(super::trace::Regs { pc: inc16(pc), ..c0.regs() }, c1.trace@, b0 + 1);
    lemma_flat_memory(c2, b0, b0 + 1);
    lemma_flat_memory(c2, b0, b0 + 2);
    lemma_flat_memory(c2, b0, b0 + 3);
    lemma_flat_memory(c2, b0, b0 + 4);
    lemma_flat_memory(c2, b0, b0 + 5);
    let m5 = pushed_return(m, pc, s);
    assert(memory_after(m, t, b0, b0 + 5) == m5);
    assert(t[b0 + 1].data == byte_of(m, inc16(pc)));
    assert(t[b0 + 5].data == byte_of(m, ret));
    lemma_add8_add8(s, -1, -1);
}

/// JSR followed by RTS returns to the instruction after the JSR, on a flat
/// memory: from a JSR at `pc` whose target holds an RTS, with no interrupt
/// pending and the interrupt lines low, and the two stack slots that the JSR writes apart
/// from the target and from the JSR's second operand byte, the two steps
/// leave the program counter three bytes on, the stack pointer and the
/// other registers as they were, and the return address on the stack, high
/// byte first.
pub proof fn lemma_jsr_rts(c0: Cpu<RamBus>, c1: Cpu<RamBus>, c2: Cpu<RamBus>)
    requires
        c0.wf(),
        c1.stepped(c0),
        c2.stepped(c1),
        quiet(c0.latches()),
        lines_low(c0.pins),
        jsr_rts_setup(c0.bus.memory@, c0.pc, c0.s),
    ensures
        quiet(c2.latches()),
        c2.regs() == (Regs { pc: inc16(inc16(inc16(c0.pc))), ..c0.regs() }),
        c2.bus.memory@[stack_addr(c0.s) as int] == hi(inc16(inc16(c0.pc))),
        c2.bus.memory@[stack_addr(add8(c0.s, -1)) as int] == lo(inc16(inc16(c0.pc))),
{
    lemma_two_quiet_steps(c0, c1, c2);
    lemma_jsr_half(c0, c1, c2);
    lemma_decode_jsr_rts();
    let m = c0.bus.memory@;
    let pc = c0.pc;
    let s = c0.s;
    let b0 = c0.trace@.len() as int;
    let b1 = c1.trace@.len() as int;
    let t = c2.trace@;
    let ret = inc16(inc16(pc));
    let m5 = pushed_return(m, pc, s);
    let (op1, mode1) = decode_for(c1.variant, t[b1].data);
    super::decode::lemma_decode_valid(c1.variant, t[b1].data);
    lemma_op_accesses(op1, mode1, super::trace::Regs { pc: inc16(c1.pc), ..c1.regs() }, t, b1 + 1);
    assert(t.len() > b1);
    lemma_flat_memory(c2, b0, b1);
    assert(t[b1].data == 0x60);
    lemma_jsr_rts_spec(super::trace::Regs { pc: inc16(c1.pc), ..c1.regs() }, t, b1 + 1);
    lemma_flat_memory(c2, b0, b1 + 1);
    lemma_flat_memory(c2, b0, b1 + 2);
    lemma_flat_memory(c2, b0, b1 + 3);
    lemma_flat_memory(c2, b0, b1 + 4);
    lemma_add8_add8(s, -2, 1);
    lemma_add8_add8(s, -2, 2);
    assert(t[b1 + 3].data == lo(ret));
    assert(t[b1 + 4].data == hi(ret));
    assert(word(lo(ret), hi(ret)) == ret);
    lemma_flat_memory(c2, b0, t.len() as int);
}

/// The opcodes of PHP and PLP, and their cycles and effect.
proof fn lemma_php_plp_spec(r: Regs, t: Seq<Cycle>, b: int)
    ensures
        decode_spec(0x08) == (Op::Php, AddressingMode::Implied),
        decode_spec(0x28) == (Op::Plp, AddressingMode::Implied),
        op_spec(Op::Php, AddressingMode::Implied, r, t, b) == ({
            let i = flag(r.p, super::status::I);
            Outcome {
                ok: rd(t[b], r.pc, i) && wr(
                    t[b + 1],
                    stack_addr(r.s),
                    set_flag(set_flag(r.p, B, true), U, true),
                    i,
                ),
                n: 2,
                regs: Regs { s: add8(r.s, -1), ..r },
            }
        }),
        op_spec(Op::Plp, AddressingMode::Implied, r, t, b) == ({
            let i = flag(r.p, super::status::I);
            Outcome {
                ok: rd(t[b], r.pc, i) && rd(t[b + 1], stack_addr(r.s), i) && rd(
                    t[b + 2],
                    stack_addr(add8(r.s, 1)),
                    i,
                ),
                n: 3,
                regs: Regs { s: add8(r.s, 1), p: pulled_p(r.p, t[b + 2].data), ..r },
            }
        }),
{
    reveal(decode_spec);
    reveal(op_spec);
}

/// Pulling the byte that PHP pushed gives the status back.
proof fn lemma_pull_pushed(p: u8)
    by (bit_vector)
    ensures
        pulled_p(p, set_flag(set_flag(p, B, true), U, true)) == p,
{
}

/// PHP followed by PLP leaves the status as it was, on a flat memory: from
/// a PHP at `pc` followed by a PLP, with no interrupt pending and the
/// interrupt lines low, and the stack slot apart from the PLP, the two steps leave the program
/// counter two bytes on and every other register as it was, with the status
/// pushed with B and U set.
pub proof fn lemma_php_plp(c0: Cpu<RamBus>, c1: Cpu<RamBus>, c2: Cpu<RamBus>)
    requires
        c0.wf(),
        c1.stepped(c0),
        c2.stepped(c1),
        quiet(c0.latches()),
        lines_low(c0.pins),
        c0.bus.memory@.len() == 0x10000,
        byte_of(c0.bus.memory@, c0.pc) == 0x08,
        byte_of(c0.bus.memory@, inc16(c0.pc)) == 0x28,
        stack_addr(c0.s) != inc16(c0.pc),
    ensures
        quiet(c2.latches()),
        c2.regs() == (Regs { pc: inc16(inc16(c0.pc)), ..c0.regs() }),
        c2.bus.memory@[stack_addr(c0.s) as int] == set_flag(set_flag(c0.p.0, B, true), U, true),
{
    lemma_two_quiet_steps(c0, c1, c2);
    let m = c0.bus.memory@;
    let pc = c0.pc;
    let s = c0.s;
    let b0 = c0.trace@.len() as int;
    let t = c2.trace@;
    let pushed = set_flag(set_flag(c0.p.0, B, true), U, true);
    assert(c2.buses()[b0] == c0.bus);
    assert forall|k: int| 0 <= k < c1.trace@.len() implies #[trigger] t[k] == c1.trace@[k] by {}
    // The PHP step.
    let (op0, mode0) = decode_for(c0.variant, c1.trace@[b0].data);
    super::decode::lemma_decode_valid(c0.variant, c1.trace@[b0].data);
    lemma_op_accesses(op0, mode0, Regs { pc: inc16(pc), ..c0.regs() }, c1.trace@, b0 + 1);
    assert(c1.trace@.len() > b0);
    lemma_flat_memory(c2, b0, b0);
    assert(t[b0].data == 0x08);
    lemma_php_plp_spec(Regs { pc: inc16(pc), ..c0.regs() }, c1.trace@, b0 + 1);
    let b1 = c1.trace@.len() as int;
    assert(b1 == b0 + 3);
    lemma_flat_memory(c2, b0, b0 + 1);
    lemma_flat_memory(c2, b0, b0 + 2);
    let m1 = m.update(stack_addr(s) as int, pushed);
    assert(memory_after(m, t, b0, b1) == m1);
    assert(c1.regs() == Regs { pc: inc16(pc), s: add8(s, -1), ..c0.regs() });
    // The PLP step.
    let (op1, mode1) = decode_for(c1.variant, t[b1].data);
    super::decode::lemma_decode_valid(c1.variant, t[b1].data);
    lemma_op_accesses(op1, mode1, Regs { pc: inc16(c1.pc), ..c1.regs() }, t, b1 + 1);
    assert(t.len() > b1);
    lemma_flat_memory(c2, b0, b1);
    assert(t[b1].data == 0x28);
    lemma_php_plp_spec(Regs { pc: inc16(c1.pc), ..c1.regs() }, t, b1 + 1);
    lemma_flat_memory(c2, b0, b1 + 1);
    lemma_flat_memory(c2, b0, b1 + 2);
    lemma_flat_memory(c2, b0, b1 + 3);
    lemma_add8_add8(s, -1, 1);
    assert(add8(s, 0) == s);
    assert(t[b1 + 3].data == pushed);
    lemma_pull_pushed(c0.p.0);
    lemma_flat_memory(c2, b0, t.len() as int);
}

/// An NMI is taken once per edge: a step that runs the NMI sequence while
/// the NMI line stays high through its accesses leaves no NMI pending, so
/// the next step does not run another.
pub proof fn lemma_nmi_taken_once<B: Bus>(c0: Cpu<B>, c1: Cpu<B>)
    requires
        c0.wf(),
        c1.stepped(c0),
        pending_interrupt(c0.latches()) == Some(Interrupt::Nmi),
        c0.latches().prev_nmi,
        forall|k: int|
            c0.trace@.len() <= k < c1.trace@.len() ==> (#[trigger] c1.trace@[k]).after.nmi,
    ensures
        !c1.latches().need_nmi,
        !c1.latches().prev_need_nmi,
        pending_interrupt(c1.latches()) != Some(Interrupt::Nmi),
{
    let b0 = c0.trace@.len() as int;
    super::frame::lemma_step_accesses(c0.regs(), c0.latches(), c1.trace@, b0);
    let l = acknowledged(c0.latches());
    assert(!l.need_nmi && l.prev_nmi);
    lemma_nmi_once_per_edge(l, c1.trace@, b0, c1.trace@.len() as int);
}

/// The opcodes of ADC and SBC with an immediate operand.
proof fn lemma_decode_adc_sbc()
    ensures
        decode_spec(0x69) == (Op::Adc, AddressingMode::Immediate),
        decode_spec(0xe9) == (Op::Sbc, AddressingMode::Immediate),
{
    reveal(decode_spec);
}

/// The cycles and effect of a read instruction with an immediate operand.
proof fn lemma_immediate_spec(op: Op, r: Regs, t: Seq<Cycle>, b: int)
    requires
        is_read_op(op),
    ensures
        op_spec(op, AddressingMode::Immediate, r, t, b) == (Outcome {
            ok: rd(t[b], r.pc, flag(r.p, super::status::I)),
            n: 1,
            regs: read_effect(op, Regs { pc: inc16(r.pc), ..r }, t[b].data),
        }),
{
    reveal(op_spec);
}

/// A step on a flat memory, with no interrupt pending, that fetches a read
/// instruction with an immediate operand: two accesses, the operand read
/// from the byte after the opcode.
proof fn lemma_immediate_step(c0: Cpu<RamBus>, c1: Cpu<RamBus>, op: Op)
    requires
        c0.wf(),
        c1.stepped(c0),
        quiet(c0.latches()),
        is_read_op(op),
        decode_for(c0.variant, byte_of(c0.bus.memory@, c0.pc)) == (op, AddressingMode::Immediate),
    ensures
        c1.regs() == read_effect(
            op,
            Regs { pc: inc16(inc16(c0.pc)), ..c0.regs() },
            byte_of(c0.bus.memory@, inc16(c0.pc)),
        ),
        c1.cycles == c0.cycles + 2,
{
    let m = c0.bus.memory@;
    let b0 = c0.trace@.len() as int;
    let t = c1.trace@;
    super::frame::lemma_step_accesses(c0.regs(), c0.latches(), t, b0);
    assert(c1.buses()[b0] == c0.bus);
    lemma_flat_memory(c1, b0, b0);
    lemma_immediate_spec(op, Regs { pc: inc16(c0.pc), ..c0.regs() }, t, b0 + 1);
    lemma_flat_memory(c1, b0, b0 + 1);
    assert(t[b0 + 1].data == byte_of(m, inc16(c0.pc)));
}

/// On two processors in the same state but for their memories, SBC of an
/// immediate operand and ADC of its complement leave the same registers
/// after the same number of cycles, with no interrupt pending: the
/// accumulator is the old one minus the operand and the borrow, modulo 256.
pub proof fn lemma_sbc_adc_steps(c0: Cpu<RamBus>, c1: Cpu<RamBus>, d0: Cpu<RamBus>, d1: Cpu<RamBus>)
    requires
        c0.wf(),
        c1.stepped(c0),
        d0.wf(),
        d1.stepped(d0),
        quiet(c0.latches()),
        quiet(d0.latches()),
        c0.regs() == d0.regs(),
        c0.cycles == d0.cycles,
        byte_of(c0.bus.memory@, c0.pc) == 0xe9,
        byte_of(d0.bus.memory@, d0.pc) == 0x69,
        byte_of(d0.bus.memory@, inc16(d0.pc)) == byte_of(c0.bus.memory@, inc16(c0.pc)) ^ 0xff,
    ensures
        c1.regs() == d1.regs(),
        c1.cycles == d1.cycles,
        ({
            let m = byte_of(c0.bus.memory@, inc16(c0.pc));
            let d = c0.a - m - (1 - bit(flag(c0.p.0, C)));
            c1.a == if d >= 0 { d } else { d + 256 }
        }),
{
    lemma_decode_adc_sbc();
    let m = byte_of(c0.bus.memory@, inc16(c0.pc));
    lemma_immediate_step(c0, c1, Op::Sbc);
    lemma_immediate_step(d0, d1, Op::Adc);
    let r = Regs { pc: inc16(inc16(c0.pc)), ..c0.regs() };
    lemma_sbc_is_adc_of_complement(r, m);
    lemma_sbc(r, m);
}

/// Polling keeps a raised NMI raised and, over at least two cycles with the
/// reset line low, ends with it raised a cycle before the last and no reset
/// pending.
proof fn lemma_nmi_stays_raised(l: Latches, t: Seq<Cycle>, b: int, e: int)
    requires
        l.need_nmi,
        !l.rst,
        b <= e,
        forall|k: int| b <= k < e ==> !(#[trigger] t[k]).after.rst,
    ensures
        poll_range(l, t, b, e).need_nmi,
        !poll_range(l, t, b, e).rst,
        e - b >= 2 ==> poll_range(l, t, b, e).prev_need_nmi,
    decreases e - b,
{
    if e > b {
        lemma_nmi_stays_raised(l, t, b, e - 1);
    }
}

/// A cycle whose NMI line is high, after a cycle (or latches) with it low,
/// raises an NMI.
pub proof fn lemma_edge_raises_nmi(l: Latches, c: Cycle)
    requires
        !l.prev_nmi,
        c.after.nmi,
    ensures
        super::trace::poll(l, c).need_nmi,
{
}

/// An NMI runs within two steps of being raised: once a step leaves an NMI
/// raised, with no reset pending or raised on the way, either the next step
/// runs the NMI sequence or the step after it does.
pub proof fn lemma_nmi_latency<B: Bus>(c1: Cpu<B>, c2: Cpu<B>)
    requires
        c1.wf(),
        c2.stepped(c1),
        c1.latches().need_nmi,
        !c1.latches().rst,
        forall|k: int|
            c1.trace@.len() <= k < c2.trace@.len() ==> !(#[trigger] c2.trace@[k]).after.rst,
    ensures
        pending_interrupt(c1.latches()) == Some(Interrupt::Nmi) || pending_interrupt(c2.latches())
            == Some(Interrupt::Nmi),
{
    let b1 = c1.trace@.len() as int;
    super::frame::lemma_step_accesses(c1.regs(), c1.latches(), c2.trace@, b1);
    if pending_interrupt(c1.latches()) != Some(Interrupt::Nmi) {
        let l = acknowledged(c1.latches());
        assert(l == c1.latches());
        lemma_nmi_stays_raised(l, c2.trace@, b1, c2.trace@.len() as int);
    }
}

/// What the read-modify-write instructions write back, in arithmetic: INC
/// and ISB add one and DEC and DCP subtract one, modulo 256, so DEC undoes
/// INC; the shifts double or halve, the rotates bring the carry in at the
/// other end, and rotating right with the carry a left rotate shifted out
/// undoes the left rotate.
pub proof fn lemma_rmw_values(v: u8, c: bool)
    ensures
        rmw_value(Op::Inc, v, c) as int == (v + 1) % 256,
        rmw_value(Op::Isb, v, c) as int == (v + 1) % 256,
        rmw_value(Op::Dec, v, c) as int == (v + 255) % 256,
        rmw_value(Op::Dcp, v, c) as int == (v + 255) % 256,
        rmw_value(Op::Dec, rmw_value(Op::Inc, v, c), c) == v,
        rmw_value(Op::Asl, v, c) as int == (2 * v) % 256,
        rmw_value(Op::Lsr, v, c) as int == v / 2,
        rmw_value(Op::Rol, v, c) as int == (2 * v + bit(c)) % 256,
        rmw_value(Op::Ror, v, c) as int == v / 2 + 128 * bit(c),
        rmw_value(Op::Ror, rmw_value(Op::Rol, v, c), shift_carry(Op::Rol, v)) == v,
        shift_carry(Op::Asl, v) == (v >= 128),
        shift_carry(Op::Lsr, v) == (v % 2 == 1),
{
    let i = rmw_value(Op::Inc, v, c);
    assert(rmw_value(Op::Dec, i, c) == v);
    let r = rmw_value(Op::Rol, v, c);
    assert(rmw_value(Op::Ror, r, shift_carry(Op::Rol, v)) == v);
}

/// The branch of row `a` of the opcode matrix tests flag N (rows 0-1), V
/// (2-3), C (4-5) or Z (6-7), and is taken on the flag clear in an even
/// row and set in an odd one.
pub proof fn lemma_branch_conditions(a: u8, p: u8)
    requires
        a < 8,
    ensures
        branch_taken(super::matrix::branch_row(a), p) == (flag(
            p,
            if a < 2 {
                N
            } else if a < 4 {
                V
            } else if a < 6 {
                C
            } else {
                Z
            },
        ) == (a % 2 == 1)),
{
}

/// The loads put the operand in their register (LAX in both A and X), set
/// Z when it is zero and N when its top bit is set, and leave the other
/// flags and registers alone.
pub proof fn lemma_loads(r: Regs, v: u8, k: u8)
    requires
        k < 8,
        k != Z,
        k != N,
    ensures
        read_effect(Op::Lda, r, v) == (Regs { a: v, p: read_effect(Op::Lda, r, v).p, ..r }),
        read_effect(Op::Ldx, r, v) == (Regs { x: v, p: read_effect(Op::Ldx, r, v).p, ..r }),
        read_effect(Op::Ldy, r, v) == (Regs { y: v, p: read_effect(Op::Ldy, r, v).p, ..r }),
        read_effect(Op::Lax, r, v) == (Regs { a: v, x: v, p: read_effect(Op::Lax, r, v).p, ..r }),
        flag(read_effect(Op::Lda, r, v).p, Z) == (v == 0),
        flag(read_effect(Op::Lda, r, v).p, N) == (v >= 128),
        flag(read_effect(Op::Lda, r, v).p, k) == flag(r.p, k),
{
    lemma_set_flag(r.p, Z, Z, v == 0);
    lemma_set_flag(r.p, Z, k, v == 0);
    lemma_set_flag(set_flag(r.p, Z, v == 0), N, Z, is_negative(v));
    lemma_set_flag(set_flag(r.p, Z, v == 0), N, N, is_negative(v));
    lemma_set_flag(set_flag(r.p, Z, v == 0), N, k, is_negative(v));
}

/// The flag instructions of column 6 of group 0 (all but row 4, TYA): rows
/// 0-1 clear and set C, rows 2-3 clear and set I, row 5 clears V and rows
/// 6-7 clear and set D. Each changes only its flag.
pub proof fn lemma_flag_instructions(a: u8, r: Regs, j: u8)
    requires
        a < 8,
        a != 4,
        j < 8,
    ensures
        ({
            let op = super::matrix::matrix((a * 32 + 0x18) as u8).0;
            let k = if a < 2 {
                C
            } else if a < 4 {
                I
            } else if a == 5 {
                V
            } else {
                D
            };
            let q = implied_effect(op, r);
            &&& q == (Regs { p: q.p, ..r })
            &&& flag(q.p, k) == (a % 2 == 1 && a != 5)
            &&& j != k ==> flag(q.p, j) == flag(r.p, j)
        }),
{
    let o = (a * 32 + 0x18) as u8;
    assert(super::matrix::row(o) == a && super::matrix::column(o) == 6 && super::matrix::group(o)
        == 0);
    let k = if a < 2 {
        C
    } else if a < 4 {
        I
    } else if a == 5 {
        V
    } else {
        D
    };
    lemma_set_flag(r.p, k, k, a % 2 == 1 && a != 5);
    lemma_set_flag(r.p, k, j, a % 2 == 1 && a != 5);
}

} // verus!
