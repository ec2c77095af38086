//! Bit queries on bytes.
use vstd::prelude::*;

use crate::cpu::status::{flag, set_flag};

verus! {

/// Queries on the lowest and highest bit of a byte.
pub trait BitPos: Sized {
    /// Whether bit 0 is set.
    fn lsb(self) -> bool;

    /// Whether bit 7 is set.
    fn msb(self) -> bool;
}

/// Bit `n` of `value`.
pub open spec fn bit_of(value: u8, n: u8) -> bool {
    (value >> n) & 1 == 1
}

impl BitPos for u8 {
    fn lsb(self) -> (r: bool)
        ensures
            r == bit_of(self, 0),
            r == (self & 1 == 1),
            r == (self % 2 == 1),
    {
        let r = (self & 0x01) == 0x01;
        assert(((self & 0x01) == 0x01) == ((self >> 0u8) & 1 == 1)) by (bit_vector);
        assert(((self & 0x01) == 0x01) == (self % 2 == 1)) by (bit_vector);
        r
    }

    fn msb(self) -> (r: bool)
        ensures
            r == bit_of(self, 7),
            r == (self & 0x80 == 0x80),
            r == (self >= 0x80),
    {
        let r = (self & 0x80) == 0x80;
        assert(((self & 0x80) == 0x80) == ((self >> 7u8) & 1 == 1)) by (bit_vector);
        assert(((self & 0x80) == 0x80) == (self >= 0x80)) by (bit_vector);
        r
    }
}

/// Whether bit `k` of `v` is set.
pub fn test_bit(v: u8, k: u8) -> (r: bool)
    requires
        k < 8,
    ensures
        r == flag(v, k),
{
    v & (1u8 << k) != 0
}

/// `v` with bit `k` set to `b`.
pub fn with_bit(v: u8, k: u8, b: bool) -> (r: u8)
    requires
        k < 8,
    ensures
        r == set_flag(v, k, b),
{
    if b {
        v | (1u8 << k)
    } else {
        v & !(1u8 << k)
    }
}

} // verus!
