//! The PPU mask register (PPUMASK).
use vstd::prelude::*;

use crate::bit::test_bit;
use crate::cpu::status::flag;

verus! {

/// Bit position of greyscale output.
pub const GREYSCALE: u8 = 0;
/// Bit position of showing the background in the leftmost 8 pixels.
pub const SHOW_BACKGROUND_LEFT: u8 = 1;
/// Bit position of showing sprites in the leftmost 8 pixels.
pub const SHOW_SPRITES_LEFT: u8 = 2;
/// Bit position of showing the background.
pub const SHOW_BACKGROUND: u8 = 3;
/// Bit position of showing sprites.
pub const SHOW_SPRITES: u8 = 4;
/// Bit position of red emphasis.
pub const EMPHASIZE_RED: u8 = 5;
/// Bit position of green emphasis.
pub const EMPHASIZE_GREEN: u8 = 6;
/// Bit position of blue emphasis.
pub const EMPHASIZE_BLUE: u8 = 7;

/// The PPU mask register.
#[derive(Clone, Copy)]
pub struct Mask(pub u8);

impl Mask {
    /// Whether the output is greyscale.
    pub fn greyscale(&self) -> (r: bool)
        ensures
            r == flag(self.0, GREYSCALE),
    {
        test_bit(self.0, GREYSCALE)
    }

    /// Whether the background shows in the leftmost 8 pixels.
    pub fn show_background_left(&self) -> (r: bool)
        ensures
            r == flag(self.0, SHOW_BACKGROUND_LEFT),
    {
        test_bit(self.0, SHOW_BACKGROUND_LEFT)
    }

    /// Whether sprites show in the leftmost 8 pixels.
    pub fn show_sprites_left(&self) -> (r: bool)
        ensures
            r == flag(self.0, SHOW_SPRITES_LEFT),
    {
        test_bit(self.0, SHOW_SPRITES_LEFT)
    }

    /// Whether the background shows.
    pub fn show_background(&self) -> (r: bool)
        ensures
            r == flag(self.0, SHOW_BACKGROUND),
    {
        test_bit(self.0, SHOW_BACKGROUND)
    }

    /// Whether sprites show.
    pub fn show_sprites(&self) -> (r: bool)
        ensures
            r == flag(self.0, SHOW_SPRITES),
    {
        test_bit(self.0, SHOW_SPRITES)
    }

    /// Whether red is emphasized.
    pub fn emphasize_red(&self) -> (r: bool)
        ensures
            r == flag(self.0, EMPHASIZE_RED),
    {
        test_bit(self.0, EMPHASIZE_RED)
    }

    /// Whether green is emphasized.
    pub fn emphasize_green(&self) -> (r: bool)
        ensures
            r == flag(self.0, EMPHASIZE_GREEN),
    {
        test_bit(self.0, EMPHASIZE_GREEN)
    }

    /// Whether blue is emphasized.
    pub fn emphasize_blue(&self) -> (r: bool)
        ensures
            r == flag(self.0, EMPHASIZE_BLUE),
    {
        test_bit(self.0, EMPHASIZE_BLUE)
    }
}

} // verus!
