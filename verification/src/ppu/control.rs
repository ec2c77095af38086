//! The PPU control register (PPUCTRL).
use vstd::prelude::*;

use crate::bit::test_bit;
use crate::cpu::status::flag;

verus! {

/// Bit position of the VRAM address increment mode.
pub const INCREMENT_MODE: u8 = 2;
/// Bit position of the sprite pattern table select.
pub const SPRITE_PATTERN_TABLE: u8 = 3;
/// Bit position of the background pattern table select.
pub const BACKGROUND_PATTERN_TABLE: u8 = 4;
/// Bit position of the sprite size select.
pub const SPRITE_SIZE: u8 = 5;
/// Bit position of the NMI enable.
pub const NMI_ENABLE: u8 = 7;

/// The PPU control register.
#[derive(Clone, Copy)]
pub struct Control(pub u8);

impl Control {
    /// The base nametable, from 0 to 3.
    pub fn nametable(&self) -> (r: u8)
        ensures
            r == self.0 % 4,
    {
        self.0 % 4
    }

    /// Whether the VRAM address advances by 32 rather than 1.
    pub fn increment_mode(&self) -> (r: bool)
        ensures
            r == flag(self.0, INCREMENT_MODE),
    {
        test_bit(self.0, INCREMENT_MODE)
    }

    /// Whether sprites use the pattern table at 0x1000.
    pub fn sprite_pattern_table(&self) -> (r: bool)
        ensures
            r == flag(self.0, SPRITE_PATTERN_TABLE),
    {
        test_bit(self.0, SPRITE_PATTERN_TABLE)
    }

    /// Whether the background uses the pattern table at 0x1000.
    pub fn background_pattern_table(&self) -> (r: bool)
        ensures
            r == flag(self.0, BACKGROUND_PATTERN_TABLE),
    {
        test_bit(self.0, BACKGROUND_PATTERN_TABLE)
    }

    /// Whether sprites are 8x16 rather than 8x8.
    pub fn sprite_size(&self) -> (r: bool)
        ensures
            r == flag(self.0, SPRITE_SIZE),
    {
        test_bit(self.0, SPRITE_SIZE)
    }

    /// Whether the start of vertical blanking raises an NMI.
    pub fn nmi(&self) -> (r: bool)
        ensures
            r == flag(self.0, NMI_ENABLE),
    {
        test_bit(self.0, NMI_ENABLE)
    }
}

} // verus!
