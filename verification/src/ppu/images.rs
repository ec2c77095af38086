//! Pictures of the PPU's memory for a debugger: the pattern tables as pixel
//! values, and the last frame as palette memory values.
use vstd::prelude::*;

use super::{two_bits, Ppu, FRAME_SIZE};

verus! {

/// The width of the pattern table picture in pixels.
pub const PATTERN_TABLE_WIDTH: usize = 128;
/// The height of the pattern table picture in pixels.
pub const PATTERN_TABLE_HEIGHT: usize = 256;
/// The number of tiles in both pattern tables.
pub const TOTAL_TILES: usize = 512;
/// The number of tiles in a row of the picture.
pub const TILES_PER_ROW: usize = 16;

/// Bit `k` of `v`.
pub open spec fn bit(v: u8, k: int) -> bool {
    (v as int / pow2(k)) % 2 == 1
}

/// 2 to the power `k`, for `k` from 0 to 8.
pub open spec fn pow2(k: int) -> int {
    if k <= 0 {
        1
    } else if k == 1 {
        2
    } else if k == 2 {
        4
    } else if k == 3 {
        8
    } else if k == 4 {
        16
    } else if k == 5 {
        32
    } else if k == 6 {
        64
    } else if k == 7 {
        128
    } else {
        256
    }
}

/// The power of two `pow2(k)`, for `k` below 8.
fn power_of_two(k: u8) -> (r: u8)
    requires
        k < 8,
    ensures
        r == pow2(k as int),
{
    if k == 0 {
        1
    } else if k == 1 {
        2
    } else if k == 2 {
        4
    } else if k == 3 {
        8
    } else if k == 4 {
        16
    } else if k == 5 {
        32
    } else if k == 6 {
        64
    } else {
        128
    }
}

impl Ppu {
    /// The pixel value (0 to 3) of pixel (`row`, `col`) of tile `tile`: bit
    /// `7 - col` of the tile's two planes for that row.
    pub open spec fn tile_pixel(&self, tile: int, row: int, col: int) -> u8 {
        let low = self.peek((tile * 16 + row) as u16);
        let high = self.peek((tile * 16 + 8 + row) as u16);
        two_bits(bit(high, 7 - col), bit(low, 7 - col))
    }

    /// The pixel value at (`x`, `y`) of the pattern table picture: tiles are
    /// laid out sixteen to a row, eight by eight pixels each.
    pub open spec fn picture_pixel(&self, x: int, y: int) -> u8 {
        self.tile_pixel((y / 8) * TILES_PER_ROW + x / 8, y % 8, x % 8)
    }

    /// The pattern tables as a picture of pixel values, 128 pixels wide and
    /// 256 high, row by row.
    pub fn pattern_table_pixels(&self) -> (pixels: Vec<u8>)
        requires
            self.wf(),
            self.cartridge.chr_rom@.len() >= 0x2000,
        ensures
            pixels@.len() == PATTERN_TABLE_WIDTH * PATTERN_TABLE_HEIGHT,
            forall|x: int, y: int|
                0 <= x < PATTERN_TABLE_WIDTH && 0 <= y < PATTERN_TABLE_HEIGHT ==> #[trigger] pixels@[y
                    * PATTERN_TABLE_WIDTH + x] == self.picture_pixel(x, y),
    {
        let mut pixels: Vec<u8> = Vec::new();
        let mut y: usize = 0;
        while y < PATTERN_TABLE_HEIGHT
            invariant
                self.wf(),
                self.cartridge.chr_rom@.len() >= 0x2000,
                y <= PATTERN_TABLE_HEIGHT,
                pixels@.len() == y * PATTERN_TABLE_WIDTH,
                forall|x: int, y2: int|
                    0 <= x < PATTERN_TABLE_WIDTH && 0 <= y2 < y ==> #[trigger] pixels@[y2
                        * PATTERN_TABLE_WIDTH + x] == self.picture_pixel(x, y2),
            decreases PATTERN_TABLE_HEIGHT - y,
        {
            let mut x: usize = 0;
            while x < PATTERN_TABLE_WIDTH
                invariant
                    self.wf(),
                    self.cartridge.chr_rom@.len() >= 0x2000,
                    y < PATTERN_TABLE_HEIGHT,
                    x <= PATTERN_TABLE_WIDTH,
                    pixels@.len() == y * PATTERN_TABLE_WIDTH + x,
                    forall|x2: int, y2: int|
                        0 <= x2 < PATTERN_TABLE_WIDTH && 0 <= y2 < y ==> #[trigger] pixels@[y2
                            * PATTERN_TABLE_WIDTH + x2] == self.picture_pixel(x2, y2),
                    forall|x2: int|
                        0 <= x2 < x ==> #[trigger] pixels@[y * PATTERN_TABLE_WIDTH + x2]
                            == self.picture_pixel(x2, y as int),
                decreases PATTERN_TABLE_WIDTH - x,
            {
                let tile = (y / 8) * TILES_PER_ROW + x / 8;
                let row = y % 8;
                let col = x % 8;
                let low = self.read_data((tile * 16 + row) as u16);
                let high = self.read_data((tile * 16 + 8 + row) as u16);
                // The lowest bit of a plane is the rightmost pixel of the
                // tile.
                let shift = power_of_two((7 - col) as u8);
                let pixel_value: u8 = (high / shift % 2) * 2 + low / shift % 2;
                pixels.push(pixel_value);
                x = x + 1;
            }
            y = y + 1;
        }
        pixels
    }

    /// The palette memory value of a pixel of palette `palette`.
    pub fn color_index(&self, pixel_value: u8, palette: u8) -> (index: u8)
        requires
            self.wf(),
            palette < 64,
            palette * 4 + pixel_value <= 0xff,
        ensures
            index == self.peek((0x3f00 + palette * 4 + pixel_value) as u16),
    {
        self.read_data(0x3f00 + (palette * 4) as u16 + pixel_value as u16)
    }

    /// The last complete frame as palette memory values, one per pixel.
    pub fn screen_color_indices(&self) -> (indices: Vec<u8>)
        requires
            self.wf(),
            forall|i: int|
                0 <= i < FRAME_SIZE ==> (#[trigger] self.frame@[i]).1 < 64 && self.frame@[i].1 * 4
                    + self.frame@[i].0 <= 0xff,
        ensures
            indices@.len() == FRAME_SIZE,
            forall|i: int|
                0 <= i < FRAME_SIZE ==> #[trigger] indices@[i] == self.peek(
                    (0x3f00 + self.frame@[i].1 * 4 + self.frame@[i].0) as u16,
                ),
    {
        let mut indices: Vec<u8> = Vec::new();
        let mut i: usize = 0;
        while i < FRAME_SIZE
            invariant
                self.wf(),
                forall|j: int|
                    0 <= j < FRAME_SIZE ==> (#[trigger] self.frame@[j]).1 < 64 && self.frame@[j].1
                        * 4 + self.frame@[j].0 <= 0xff,
                i <= FRAME_SIZE,
                indices@.len() == i,
                forall|j: int|
                    0 <= j < i ==> #[trigger] indices@[j] == self.peek(
                        (0x3f00 + self.frame@[j].1 * 4 + self.frame@[j].0) as u16,
                    ),
            decreases FRAME_SIZE - i,
        {
            let (pixel_value, palette) = self.frame[i];
            indices.push(self.color_index(pixel_value, palette));
            i = i + 1;
        }
        indices
    }
}

} // verus!
