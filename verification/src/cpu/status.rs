use vstd::prelude::*;

verus! {

/// Bit position of the carry flag.
pub const C: u8 = 0;
/// Bit position of the zero flag.
pub const Z: u8 = 1;
/// Bit position of the interrupt disable flag.
pub const I: u8 = 2;
/// Bit position of the decimal flag.
pub const D: u8 = 3;
/// Bit position of the break flag.
pub const B: u8 = 4;
/// Bit position of the unused flag.
pub const U: u8 = 5;
/// Bit position of the overflow flag.
pub const V: u8 = 6;
/// Bit position of the negative flag.
pub const N: u8 = 7;

/// Whether bit `k` of the status byte `p` is set.
pub open spec fn flag(p: u8, k: u8) -> bool {
    p & (1u8 << k) != 0
}

/// The status byte `p` with bit `k` set to `b`.
pub open spec fn set_flag(p: u8, k: u8, b: bool) -> u8 {
    if b {
        p | (1u8 << k)
    } else {
        p & !(1u8 << k)
    }
}

/// Whether a byte is negative when read as a two's complement number.
pub open spec fn is_negative(v: u8) -> bool {
    v >= 0x80
}

/// The status byte `p` with the zero and negative flags describing `v`.
pub open spec fn set_zn(p: u8, v: u8) -> u8 {
    set_flag(set_flag(p, Z, v == 0), N, is_negative(v))
}

/// Setting one flag leaves every other flag as it was, and reading the flag
/// back gives the value that was set.
pub proof fn lemma_set_flag(p: u8, k: u8, j: u8, b: bool)
    by (bit_vector)
    requires
        k < 8,
        j < 8,
    ensures
        flag(set_flag(p, k, b), j) == if j == k { b } else { flag(p, j) },
{
}

/// The processor status register.
#[derive(Clone, Copy)]
pub struct Status(pub u8);

impl Status {
    fn get(&self, k: u8) -> (r: bool)
        requires
            k < 8,
        ensures
            r == flag(self.0, k),
    {
        self.0 & (1u8 << k) != 0
    }

    fn put(&mut self, k: u8, b: bool)
        requires
            k < 8,
        ensures
            final(self).0 == set_flag(old(self).0, k, b),
    {
        if b {
            self.0 = self.0 | (1u8 << k);
        } else {
            self.0 = self.0 & !(1u8 << k);
        }
    }

    /// The carry flag.
    pub fn c(&self) -> (r: bool)
        ensures
            r == flag(self.0, C),
    {
        self.get(C)
    }

    /// The zero flag.
    pub fn z(&self) -> (r: bool)
        ensures
            r == flag(self.0, Z),
    {
        self.get(Z)
    }

    /// The interrupt disable flag.
    pub fn i(&self) -> (r: bool)
        ensures
            r == flag(self.0, I),
    {
        self.get(I)
    }

    /// The decimal flag.
    pub fn d(&self) -> (r: bool)
        ensures
            r == flag(self.0, D),
    {
        self.get(D)
    }

    /// The break flag.
    pub fn b(&self) -> (r: bool)
        ensures
            r == flag(self.0, B),
    {
        self.get(B)
    }

    /// The unused flag.
    pub fn u(&self) -> (r: bool)
        ensures
            r == flag(self.0, U),
    {
        self.get(U)
    }

    /// The overflow flag.
    pub fn v(&self) -> (r: bool)
        ensures
            r == flag(self.0, V),
    {
        self.get(V)
    }

    /// The negative flag.
    pub fn n(&self) -> (r: bool)
        ensures
            r == flag(self.0, N),
    {
        self.get(N)
    }

    /// Sets the carry flag.
    pub fn set_c(&mut self, b: bool)
        ensures
            final(self).0 == set_flag(old(self).0, C, b),
    {
        self.put(C, b)
    }

    /// Sets the zero flag.
    pub fn set_z(&mut self, b: bool)
        ensures
            final(self).0 == set_flag(old(self).0, Z, b),
    {
        self.put(Z, b)
    }

    /// Sets the interrupt disable flag.
    pub fn set_i(&mut self, b: bool)
        ensures
            final(self).0 == set_flag(old(self).0, I, b),
    {
        self.put(I, b)
    }

    /// Sets the decimal flag.
    pub fn set_d(&mut self, b: bool)
        ensures
            final(self).0 == set_flag(old(self).0, D, b),
    {
        self.put(D, b)
    }

    /// Sets the break flag.
    pub fn set_b(&mut self, b: bool)
        ensures
            final(self).0 == set_flag(old(self).0, B, b),
    {
        self.put(B, b)
    }

    /// Sets the unused flag.
    pub fn set_u(&mut self, b: bool)
        ensures
            final(self).0 == set_flag(old(self).0, U, b),
    {
        self.put(U, b)
    }

    /// Sets the overflow flag.
    pub fn set_v(&mut self, b: bool)
        ensures
            final(self).0 == set_flag(old(self).0, V, b),
    {
        self.put(V, b)
    }

    /// Sets the negative flag.
    pub fn set_n(&mut self, b: bool)
        ensures
            final(self).0 == set_flag(old(self).0, N, b),
    {
        self.put(N, b)
    }

    /// A copy of this status with the break flag set to `b`.
    pub fn with_b(self, b: bool) -> (r: Status)
        ensures
            r.0 == set_flag(self.0, B, b),
    {
        let mut r = self;
        r.put(B, b);
        r
    }

    /// A copy of this status with the unused flag set to `b`.
    pub fn with_u(self, b: bool) -> (r: Status)
        ensures
            r.0 == set_flag(self.0, U, b),
    {
        let mut r = self;
        r.put(U, b);
        r
    }

    /// Sets the zero and negative flags to describe `v`.
    pub fn set_z_and_n(&mut self, v: u8)
        ensures
            final(self).0 == set_zn(old(self).0, v),
    {
        self.set_z(v == 0);
        assert((v & 0x80 != 0) == (v >= 0x80)) by (bit_vector);
        self.set_n(v & 0x80 != 0);
    }
}

impl From<u8> for Status {
    fn from(v: u8) -> (r: Status) {
        Status(v)
    }
}

impl vstd::std_specs::convert::FromSpecImpl<u8> for Status {
    open spec fn obeys_from_spec() -> bool {
        true
    }

    open spec fn from_spec(v: u8) -> Status {
        Status(v)
    }
}

impl From<Status> for u8 {
    fn from(s: Status) -> (r: u8) {
        s.0
    }
}

impl vstd::std_specs::convert::FromSpecImpl<Status> for u8 {
    open spec fn obeys_from_spec() -> bool {
        true
    }

    open spec fn from_spec(s: Status) -> u8 {
        s.0
    }
}

} // verus!
