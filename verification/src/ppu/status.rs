//! The PPU status register (PPUSTATUS).
use vstd::prelude::*;

use crate::bit::{test_bit, with_bit};
use crate::cpu::status::{flag, set_flag};

verus! {

/// Bit position of the sprite overflow flag.
pub const SPRITE_OVERFLOW: u8 = 5;
/// Bit position of the sprite 0 hit flag.
pub const SPRITE_0_HIT: u8 = 6;
/// Bit position of the vertical blank flag.
pub const VBLANK: u8 = 7;

/// The PPU status register.
#[derive(Clone, Copy)]
pub struct Status(pub u8);

impl Status {
    /// The sprite overflow flag.
    pub fn sprite_overflow(&self) -> (r: bool)
        ensures
            r == flag(self.0, SPRITE_OVERFLOW),
    {
        test_bit(self.0, SPRITE_OVERFLOW)
    }

    /// The sprite 0 hit flag.
    pub fn sprite_0_hit(&self) -> (r: bool)
        ensures
            r == flag(self.0, SPRITE_0_HIT),
    {
        test_bit(self.0, SPRITE_0_HIT)
    }

    /// The vertical blank flag.
    pub fn vblank(&self) -> (r: bool)
        ensures
            r == flag(self.0, VBLANK),
    {
        test_bit(self.0, VBLANK)
    }

    /// Sets the sprite overflow flag.
    pub fn set_sprite_overflow(&mut self, b: bool)
        ensures
            final(self).0 == set_flag(old(self).0, SPRITE_OVERFLOW, b),
    {
        self.0 = with_bit(self.0, SPRITE_OVERFLOW, b);
    }

    /// Sets the sprite 0 hit flag.
    pub fn set_sprite_0_hit(&mut self, b: bool)
        ensures
            final(self).0 == set_flag(old(self).0, SPRITE_0_HIT, b),
    {
        self.0 = with_bit(self.0, SPRITE_0_HIT, b);
    }

    /// Sets the vertical blank flag.
    pub fn set_vblank(&mut self, b: bool)
        ensures
            final(self).0 == set_flag(old(self).0, VBLANK, b),
    {
        self.0 = with_bit(self.0, VBLANK, b);
    }
}

} // verus!
