//! What each instruction does, stated over the cycles it performs.
use vstd::prelude::*;

use super::arith::{add8, inc16, signed, stack_addr, word};
use super::mode::{ea_spec, AddressingMode};
use super::status::{flag, is_negative, set_flag, set_zn, B, C, D, I, N, U, V, Z};
use super::trace::{rd, wr, Cycle, Regs, Variant};

verus! {

/// The instructions of the 6502, including the undocumented ones.
#[derive(Clone, Copy, PartialEq, Eq, Structural, Debug)]
pub enum Op {
    Adc, Alr, Anc, And, Ane, Arr, Asl, AslA, Bcc, Bcs, Beq, Bit, Bmi, Bne, Bpl, Brk, Bvc, Bvs,
    Clc, Cld, Cli, Clv, Cmp, Cpx, Cpy, Dcp, Dec, Dex, Dey, Eor, Inc, Inx, Iny, Isb, Jam, Jmp,
    Jsr, Las, Lax, Lda, Ldx, Ldy, Lsr, LsrA, Lxa, Nop, NopImplied, Ora, Pha, Php, Pla, Plp, Rla,
    Rol, RolA, Ror, RorA, Rra, Rti, Rts, Sax, Sbc, Sbx, Sec, Sed, Sei, Sha, Shx, Shy, Slo, Sre,
    Sta, Stx, Sty, Tas, Tax, Tay, Tsx, Txa, Txs, Tya,
}

/// What an instruction did: whether its cycles had the right shape, how many
/// cycles it took and the registers it left.
pub struct Outcome {
    pub ok: bool,
    pub n: int,
    pub regs: Regs,
}

/// Instructions that read one operand through an addressing mode.
pub open spec fn is_read_op(op: Op) -> bool {
    op is Adc || op is Alr || op is Anc || op is And || op is Ane || op is Arr || op is Bit
        || op is Cmp || op is Cpx || op is Cpy || op is Eor || op is Las || op is Lax || op is Lda
        || op is Ldx || op is Ldy || op is Lxa || op is Nop || op is Ora || op is Sbc || op is Sbx
}

/// Instructions that read, modify and write back one operand.
pub open spec fn is_rmw_op(op: Op) -> bool {
    op is Asl || op is Lsr || op is Rol || op is Ror || op is Inc || op is Dec || op is Slo
        || op is Sre || op is Rla || op is Rra || op is Dcp || op is Isb
}

/// Instructions that write one byte through an addressing mode.
pub open spec fn is_store_op(op: Op) -> bool {
    op is Sta || op is Stx || op is Sty || op is Sax || op is Sha || op is Shx || op is Shy
        || op is Tas
}

/// Instructions that take one dummy read of the program counter and work on
/// registers alone.
pub open spec fn is_implied_op(op: Op) -> bool {
    op is Clc || op is Cld || op is Cli || op is Clv || op is Sec || op is Sed || op is Sei
        || op is Dex || op is Dey || op is Inx || op is Iny || op is Tax || op is Tay || op is Tsx
        || op is Txa || op is Txs || op is Tya || op is NopImplied || op is Jam || op is AslA
        || op is LsrA || op is RolA || op is RorA
}

/// Conditional branches.
pub open spec fn is_branch_op(op: Op) -> bool {
    op is Bcc || op is Bcs || op is Beq || op is Bmi || op is Bne || op is Bpl || op is Bvc
        || op is Bvs
}

/// The 1 as an integer if `b` holds, else 0.
pub open spec fn bit(b: bool) -> int {
    if b {
        1
    } else {
        0
    }
}

/// Whether adding `a` and `m` to give `r` overflowed as a signed addition:
/// the operands had the same sign and the result has the other.
pub open spec fn overflows(a: u8, m: u8, r: u8) -> bool {
    is_negative(a) == is_negative(m) && is_negative(r) != is_negative(a)
}

/// Adds `v` and the carry to the accumulator.
pub open spec fn adc_regs(r: Regs, v: u8) -> Regs {
    let sum = r.a as int + v as int + bit(flag(r.p, C));
    let a = (sum % 256) as u8;
    let p = set_flag(
        set_flag(set_flag(set_flag(r.p, C, sum > 255), Z, a == 0), V, overflows(r.a, v, a)),
        N,
        is_negative(a),
    );
    Regs { a, p, ..r }
}

/// The flags after comparing `reg` with `v`.
pub open spec fn compare_p(p: u8, reg: u8, v: u8) -> u8 {
    set_zn(set_flag(p, C, reg >= v), add8(reg, -(v as int)))
}

/// The status after pulling `v` from the stack: the break and unused flags
/// keep their values.
pub open spec fn pulled_p(p: u8, v: u8) -> u8 {
    set_flag(set_flag(v, B, flag(p, B)), U, flag(p, U))
}

/// The effect of a read instruction on the registers, given the operand `v`.
pub open spec fn read_effect(op: Op, r: Regs, v: u8) -> Regs {
    match op {
        Op::Adc => adc_regs(r, v),
        Op::Sbc => adc_regs(r, (255 - v) as u8),
        Op::Alr => {
            let a1 = r.a & v;
            let a = a1 / 2;
            Regs { a, p: set_zn(set_flag(r.p, C, a1 % 2 == 1), a), ..r }
        },
        Op::Anc => {
            let a = r.a & v;
            Regs { a, p: set_zn(set_flag(r.p, C, is_negative(a)), a), ..r }
        },
        Op::And => Regs { a: r.a & v, p: set_zn(r.p, r.a & v), ..r },
        Op::Ora => Regs { a: r.a | v, p: set_zn(r.p, r.a | v), ..r },
        Op::Eor => Regs { a: r.a ^ v, p: set_zn(r.p, r.a ^ v), ..r },
        Op::Arr => {
            let a = ((r.a & v) / 2 + 128 * bit(flag(r.p, C))) as u8;
            let c = a % 128 >= 64;
            let p = set_flag(
                set_flag(set_flag(set_flag(r.p, C, c), Z, a == 0), V, c != ((a / 32) % 2 == 1)),
                N,
                is_negative(a),
            );
            Regs { a, p, ..r }
        },
        Op::Bit => Regs {
            p: set_flag(set_flag(set_flag(r.p, Z, r.a & v == 0), V, flag(v, V)), N, flag(v, N)),
            ..r
        },
        Op::Cmp => Regs { p: compare_p(r.p, r.a, v), ..r },
        Op::Cpx => Regs { p: compare_p(r.p, r.x, v), ..r },
        Op::Cpy => Regs { p: compare_p(r.p, r.y, v), ..r },
        Op::Las => {
            let a = v & r.s;
            Regs { a, x: a, s: a, p: set_zn(r.p, a), ..r }
        },
        Op::Lax | Op::Lxa => Regs { a: v, x: v, p: set_zn(r.p, v), ..r },
        Op::Lda => Regs { a: v, p: set_zn(r.p, v), ..r },
        Op::Ldx => Regs { x: v, p: set_zn(r.p, v), ..r },
        Op::Ldy => Regs { y: v, p: set_zn(r.p, v), ..r },
        Op::Sbx => {
            let ax = r.a & r.x;
            let x = add8(ax, -(v as int));
            Regs { x, p: set_zn(set_flag(r.p, C, ax >= v), x), ..r }
        },
        _ => r,
    }
}

/// The value a read-modify-write instruction writes back, given the operand
/// `v` and the carry flag `c`.
pub open spec fn rmw_value(op: Op, v: u8, c: bool) -> u8 {
    match op {
        Op::Asl | Op::Slo => add8(v, v as int),
        Op::Lsr | Op::Sre => v / 2,
        Op::Rol | Op::Rla => add8(v, v as int + bit(c)),
        Op::Ror | Op::Rra => (v / 2 + 128 * bit(c)) as u8,
        Op::Inc | Op::Isb => add8(v, 1),
        _ => add8(v, -1),
    }
}

/// The carry a shift or rotate of `v` produces.
pub open spec fn shift_carry(op: Op, v: u8) -> bool {
    if op is Asl || op is Slo || op is Rol || op is Rla {
        is_negative(v)
    } else {
        v % 2 == 1
    }
}

/// The effect of a read-modify-write instruction on the registers, given
/// the operand `v` and the value `w` written back.
pub open spec fn rmw_effect(op: Op, r: Regs, v: u8, w: u8) -> Regs {
    let c = shift_carry(op, v);
    match op {
        Op::Asl | Op::Lsr | Op::Rol | Op::Ror => Regs { p: set_zn(set_flag(r.p, C, c), w), ..r },
        Op::Inc | Op::Dec => Regs { p: set_zn(r.p, w), ..r },
        Op::Slo => Regs { a: r.a | w, p: set_zn(set_flag(r.p, C, c), r.a | w), ..r },
        Op::Sre => Regs { a: r.a ^ w, p: set_zn(set_flag(r.p, C, c), r.a ^ w), ..r },
        Op::Rla => Regs { a: r.a & w, p: set_zn(set_flag(r.p, C, c), r.a & w), ..r },
        Op::Rra => adc_regs(Regs { p: set_flag(r.p, C, c), ..r }, w),
        Op::Dcp => Regs { p: compare_p(r.p, r.a, w), ..r },
        _ => adc_regs(r, (255 - w) as u8),
    }
}

/// The register a store instruction writes.
pub open spec fn store_source(op: Op, r: Regs) -> u8 {
    match op {
        Op::Sta => r.a,
        Op::Stx | Op::Shx => r.x,
        Op::Sty | Op::Shy => r.y,
        _ => r.a & r.x,
    }
}

/// The address and data of the write a store instruction performs, given
/// its effective address. The debugger's unstable SHA, SHX, SHY and TAS
/// AND the data with the high byte of the address plus one, and use the
/// result as the high byte of the address. The emulator's AND it with the
/// high byte of the base address plus one (the effective high byte, plus
/// one unless the index crossed a page), and use the result as the high
/// byte only where the index crossed a page.
pub open spec fn store_write(op: Op, r: Regs, ea: u16) -> (u16, u8) {
    let v = store_source(op, r);
    let low = (ea % 256) as u8;
    let high = (ea / 256) as u8;
    if op is Sha || op is Shx || op is Shy || op is Tas {
        match r.variant {
            Variant::Debugger => {
                let data = v & add8(high, 1);
                (word(low, data), data)
            },
            Variant::Emulator => {
                let index = if op is Shy { r.x } else { r.y };
                let crossed = low < index;
                let data = v & add8(high, if crossed { 0 } else { 1 });
                (word(low, if crossed { data } else { high }), data)
            },
        }
    } else {
        (ea, v)
    }
}

/// The effect of an implied instruction on the registers.
pub open spec fn implied_effect(op: Op, r: Regs) -> Regs {
    match op {
        Op::Clc => Regs { p: set_flag(r.p, C, false), ..r },
        Op::Cld => Regs { p: set_flag(r.p, D, false), ..r },
        Op::Cli => Regs { p: set_flag(r.p, I, false), ..r },
        Op::Clv => Regs { p: set_flag(r.p, V, false), ..r },
        Op::Sec => Regs { p: set_flag(r.p, C, true), ..r },
        Op::Sed => Regs { p: set_flag(r.p, D, true), ..r },
        Op::Sei => Regs { p: set_flag(r.p, I, true), ..r },
        Op::Dex => Regs { x: add8(r.x, -1), p: set_zn(r.p, add8(r.x, -1)), ..r },
        Op::Dey => Regs { y: add8(r.y, -1), p: set_zn(r.p, add8(r.y, -1)), ..r },
        Op::Inx => Regs { x: add8(r.x, 1), p: set_zn(r.p, add8(r.x, 1)), ..r },
        Op::Iny => Regs { y: add8(r.y, 1), p: set_zn(r.p, add8(r.y, 1)), ..r },
        Op::Tax => Regs { x: r.a, p: set_zn(r.p, r.a), ..r },
        Op::Tay => Regs { y: r.a, p: set_zn(r.p, r.a), ..r },
        Op::Tsx => Regs { x: r.s, p: set_zn(r.p, r.s), ..r },
        Op::Txa => Regs { a: r.x, p: set_zn(r.p, r.x), ..r },
        Op::Txs => Regs { s: r.x, ..r },
        Op::Tya => Regs { a: r.y, p: set_zn(r.p, r.y), ..r },
        Op::AslA => {
            let a = add8(r.a, r.a as int);
            Regs { a, p: set_zn(set_flag(r.p, C, is_negative(r.a)), a), ..r }
        },
        Op::LsrA => {
            let a = r.a / 2;
            Regs { a, p: set_zn(set_flag(r.p, C, r.a % 2 == 1), a), ..r }
        },
        Op::RolA => {
            let a = add8(r.a, r.a as int + bit(flag(r.p, C)));
            Regs { a, p: set_zn(set_flag(r.p, C, is_negative(r.a)), a), ..r }
        },
        Op::RorA => {
            let a = (r.a / 2 + 128 * bit(flag(r.p, C))) as u8;
            Regs { a, p: set_zn(set_flag(r.p, C, r.a % 2 == 1), a), ..r }
        },
        _ => r,
    }
}

/// Whether a conditional branch is taken.
pub open spec fn branch_taken(op: Op, p: u8) -> bool {
    match op {
        Op::Bcc => !flag(p, C),
        Op::Bcs => flag(p, C),
        Op::Beq => flag(p, Z),
        Op::Bne => !flag(p, Z),
        Op::Bmi => flag(p, N),
        Op::Bpl => !flag(p, N),
        Op::Bvc => !flag(p, V),
        _ => flag(p, V),
    }
}

/// The destination of a branch with offset byte `offset` from `pc`.
pub open spec fn branch_target(pc: u16, offset: u8) -> u16 {
    ((pc as int + signed(offset)) % 65536) as u16
}

/// The low byte of a word.
pub open spec fn lo(w: u16) -> u8 {
    (w % 256) as u8
}

/// The high byte of a word.
pub open spec fn hi(w: u16) -> u8 {
    (w / 256) as u8
}

/// The cycles and effect of a conditional branch that is taken exactly when
/// `taken` holds: the offset byte is fetched; a taken branch takes one more
/// cycle, and one more again when it crosses into another page.
pub open spec fn branch_with(taken: bool, r: Regs, t: Seq<Cycle>, b: int) -> Outcome {
    let i = flag(r.p, I);
    let offset = t[b].data;
    let pc1 = inc16(r.pc);
    if !taken {
        Outcome { ok: rd(t[b], r.pc, i), n: 1, regs: Regs { pc: pc1, ..r } }
    } else {
        let target = branch_target(pc1, offset);
        let cross = hi(target) != hi(pc1);
        Outcome {
            ok: rd(t[b], r.pc, i) && rd(t[b + 1], pc1, i) && (cross ==> rd(
                t[b + 2],
                word(add8(lo(pc1), offset as int), hi(pc1)),
                i,
            )),
            n: if cross { 3 } else { 2 },
            regs: Regs { pc: target, ..r },
        }
    }
}

/// The cycles and effect of a conditional branch instruction.
pub open spec fn branch_spec(op: Op, r: Regs, t: Seq<Cycle>, b: int) -> Outcome {
    branch_with(branch_taken(op, r.p), r, t, b)
}

/// The cycles and effect of instruction `op` in addressing mode `mode`,
/// after its opcode has been fetched, read from `t` starting at `b`.
#[verifier::opaque]
pub open spec fn op_spec(op: Op, mode: AddressingMode, r: Regs, t: Seq<Cycle>, b: int) -> Outcome {
    let i = flag(r.p, I);
    let sp = r.s;
    if is_read_op(op) {
        let e = ea_spec(mode, false, r, t, b);
        let c = t[b + e.n];
        Outcome {
            ok: e.ok && rd(c, e.ea, i),
            n: e.n + 1,
            regs: read_effect(op, Regs { pc: e.pc, ..r }, c.data),
        }
    } else if is_rmw_op(op) {
        let e = ea_spec(mode, true, r, t, b);
        let v = t[b + e.n].data;
        let w = rmw_value(op, v, flag(r.p, C));
        Outcome {
            ok: e.ok && rd(t[b + e.n], e.ea, i) && wr(t[b + e.n + 1], e.ea, v, i) && wr(
                t[b + e.n + 2],
                e.ea,
                w,
                i,
            ),
            n: e.n + 3,
            regs: rmw_effect(op, Regs { pc: e.pc, ..r }, v, w),
        }
    } else if is_store_op(op) {
        let e = ea_spec(mode, true, r, t, b);
        let (address, data) = store_write(op, r, e.ea);
        let s = if op is Tas { r.a & r.x } else { r.s };
        Outcome {
            ok: e.ok && wr(t[b + e.n], address, data, i),
            n: e.n + 1,
            regs: Regs { pc: e.pc, s, ..r },
        }
    } else if is_implied_op(op) {
        Outcome { ok: rd(t[b], r.pc, i), n: 1, regs: implied_effect(op, r) }
    } else if is_branch_op(op) {
        branch_spec(op, r, t, b)
    } else {
        match op {
            Op::Jmp => {
                let e = ea_spec(mode, false, r, t, b);
                Outcome { ok: e.ok, n: e.n, regs: Regs { pc: e.ea, ..r } }
            },
            Op::Pha => Outcome {
                ok: rd(t[b], r.pc, i) && wr(t[b + 1], stack_addr(sp), r.a, i),
                n: 2,
                regs: Regs { s: add8(sp, -1), ..r },
            },
            Op::Php => Outcome {
                ok: rd(t[b], r.pc, i) && wr(
                    t[b + 1],
                    stack_addr(sp),
                    set_flag(set_flag(r.p, B, true), U, true),
                    i,
                ),
                n: 2,
                regs: Regs { s: add8(sp, -1), ..r },
            },
            Op::Pla => {
                let v = t[b + 2].data;
                Outcome {
                    ok: rd(t[b], r.pc, i) && rd(t[b + 1], stack_addr(sp), i) && rd(
                        t[b + 2],
                        stack_addr(add8(sp, 1)),
                        i,
                    ),
                    n: 3,
                    regs: Regs { a: v, s: add8(sp, 1), p: set_zn(r.p, v), ..r },
                }
            },
            Op::Plp => Outcome {
                ok: rd(t[b], r.pc, i) && rd(t[b + 1], stack_addr(sp), i) && rd(
                    t[b + 2],
                    stack_addr(add8(sp, 1)),
                    i,
                ),
                n: 3,
                regs: Regs { s: add8(sp, 1), p: pulled_p(r.p, t[b + 2].data), ..r },
            },
            Op::Jsr => {
                let ret = inc16(r.pc);
                Outcome {
                    ok: rd(t[b], r.pc, i) && rd(t[b + 1], stack_addr(sp), i) && wr(
                        t[b + 2],
                        stack_addr(sp),
                        hi(ret),
                        i,
                    ) && wr(t[b + 3], stack_addr(add8(sp, -1)), lo(ret), i) && rd(t[b + 4], ret, i),
                    n: 5,
                    regs: Regs { pc: word(t[b].data, t[b + 4].data), s: add8(sp, -2), ..r },
                }
            },
            Op::Rts => {
                let target = word(t[b + 2].data, t[b + 3].data);
                Outcome {
                    ok: rd(t[b], r.pc, i) && rd(t[b + 1], stack_addr(sp), i) && rd(
                        t[b + 2],
                        stack_addr(add8(sp, 1)),
                        i,
                    ) && rd(t[b + 3], stack_addr(add8(sp, 2)), i) && rd(t[b + 4], target, i),
                    n: 5,
                    regs: Regs { pc: inc16(target), s: add8(sp, 2), ..r },
                }
            },
            Op::Rti => {
                let p = pulled_p(r.p, t[b + 2].data);
                let i2 = flag(p, I);
                Outcome {
                    ok: rd(t[b], r.pc, i) && rd(t[b + 1], stack_addr(sp), i) && rd(
                        t[b + 2],
                        stack_addr(add8(sp, 1)),
                        i,
                    ) && rd(t[b + 3], stack_addr(add8(sp, 2)), i2) && rd(
                        t[b + 4],
                        stack_addr(add8(sp, 3)),
                        i2,
                    ),
                    n: 5,
                    regs: Regs { pc: word(t[b + 3].data, t[b + 4].data), s: add8(sp, 3), p, ..r },
                }
            },
            Op::Brk => interrupt_spec(Interrupt::Brk, r, t, b),
            _ => Outcome { ok: false, n: 0, regs: r },
        }
    }
}

/// The kinds of interrupt sequence.
#[derive(Clone, Copy, PartialEq, Eq, Structural, Debug)]
pub enum Interrupt {
    Brk,
    Irq,
    Nmi,
    Rst,
}

/// The vector an interrupt sequence jumps through.
pub open spec fn vector(kind: Interrupt) -> u16 {
    match kind {
        Interrupt::Brk | Interrupt::Irq => 0xfffe,
        Interrupt::Nmi => 0xfffa,
        Interrupt::Rst => 0xfffc,
    }
}

/// The status an interrupt sequence pushes: BRK pushes it with B set, IRQ
/// and NMI push it as it is.
pub open spec fn pushed_status(kind: Interrupt, p: u8) -> u8 {
    if kind is Brk {
        set_flag(p, B, true)
    } else {
        p
    }
}

/// The cycles and effect of an interrupt sequence. BRK skips the byte after
/// its opcode and pushes the status with the break flag set; IRQ and NMI push
/// it as it is; a reset only moves the stack pointer down by three, reading
/// where the other sequences write.
pub open spec fn interrupt_spec(kind: Interrupt, r: Regs, t: Seq<Cycle>, b: int) -> Outcome {
    let i = flag(r.p, I);
    let sp = r.s;
    let ret = if kind is Brk { inc16(r.pc) } else { r.pc };
    let p = set_flag(r.p, I, true);
    let v = vector(kind);
    let stack_ok = if kind is Rst {
        rd(t[b + 1], stack_addr(sp), i) && rd(t[b + 2], stack_addr(add8(sp, -1)), i) && rd(
            t[b + 3],
            stack_addr(add8(sp, -2)),
            i,
        )
    } else {
        wr(t[b + 1], stack_addr(sp), hi(ret), i) && wr(t[b + 2], stack_addr(add8(sp, -1)), lo(ret), i)
            && wr(t[b + 3], stack_addr(add8(sp, -2)), pushed_status(kind, r.p), i)
    };
    Outcome {
        ok: rd(t[b], r.pc, i) && stack_ok && rd(t[b + 4], v, true) && rd(t[b + 5], inc16(v), true),
        n: 6,
        regs: Regs { pc: word(t[b + 4].data, t[b + 5].data), s: add8(sp, -3), p, ..r },
    }
}

} // verus!
