//! Byte and word arithmetic used by the processor.
use vstd::prelude::*;

verus! {

/// The word with low byte `low` and high byte `high`.
pub open spec fn word(low: u8, high: u8) -> u16 {
    (high as int * 256 + low as int) as u16
}

/// `v + 1`, wrapping around at the end of the address space.
pub open spec fn inc16(v: u16) -> u16 {
    ((v as int + 1) % 65536) as u16
}

/// `v + 1` within the page of `v`: the 6502 does not carry into the high
/// byte when it reads the second byte of an indirect pointer.
pub open spec fn page_next(v: u16) -> u16 {
    ((v as int / 256) * 256 + (v as int % 256 + 1) % 256) as u16
}

/// `v + k` modulo 256.
pub open spec fn add8(v: u8, k: int) -> u8 {
    ((v as int + k) % 256) as u8
}

/// Decrementing a byte wraps from 0 to 255.
pub proof fn lemma_add8_dec(v: u8)
    ensures
        add8(v, -1) == (if v == 0 { 255 } else { v - 1 }) as u8,
{
    if v == 0 {
        assert((v as int - 1) % 256 == 255);
    } else {
        assert((v as int - 1) % 256 == v - 1);
    }
}

/// Subtracting bytes wraps around modulo 256.
pub proof fn lemma_add8_sub(a: u8, v: u8)
    ensures
        add8(a, -(v as int)) == (if a >= v { a - v } else { a - v + 256 }) as u8,
{
    if a >= v {
        assert((a as int - v as int) % 256 == a - v);
    } else {
        assert((a as int - v as int) % 256 == a - v + 256);
    }
}

/// Adding to a byte twice adds the sum.
pub proof fn lemma_add8_add8(v: u8, j: int, k: int)
    ensures
        add8(add8(v, j), k) == add8(v, j + k),
{
    vstd::arithmetic::div_mod::lemma_add_mod_noop_right(k, v as int + j, 256);
}

/// The address of stack slot `s`.
pub open spec fn stack_addr(s: u8) -> u16 {
    (0x100 + s as int) as u16
}

/// `v` read as a two's complement number.
pub open spec fn signed(v: u8) -> int {
    if v < 128 {
        v as int
    } else {
        v as int - 256
    }
}

/// Makes a word from its two bytes.
pub fn make_word(low: u8, high: u8) -> (w: u16)
    ensures
        w == word(low, high),
{
    high as u16 * 256 + low as u16
}

/// Shift and mask identities on bytes.
pub proof fn lemma_byte_ops(v: u8, c: u8)
    by (bit_vector)
    requires
        c <= 1,
    ensures
        v << 1u8 == ((v as u16 * 2) % 256) as u8,
        v >> 1u8 == v / 2,
        (v & 0x80u8 != 0) == (v >= 128),
        (v & 0x40u8 != 0) == (v % 128 >= 64),
        (v & 0x01u8 != 0) == (v % 2 == 1),
        ((v >> 5u8) & 0x01u8) == (v / 32) % 2,
        ((v << 1u8) & 0xfeu8) | c == ((v as u16 * 2 + c as u16) % 256) as u8,
        (c << 7u8) | ((v >> 1u8) & 0x7fu8) == v / 2 + c * 128,
        (c << 7u8) | (v >> 1u8) == v / 2 + c * 128,
        v ^ 0xffu8 == 255 - v,
{
}

/// The overflow test used by addition agrees with the sign rule: adding two
/// numbers of the same sign overflows exactly when the result has the other
/// sign.
pub proof fn lemma_overflow_bits(a: u8, m: u8, r: u8)
    by (bit_vector)
    ensures
        (((a ^ r) & (m ^ r) & 0x80u8) != 0) == ((a >= 128) == (m >= 128) && (r >= 128) != (a >= 128)),
{
}

} // verus!
