//! The picture processing unit.
//!
//! The PPU draws one dot per [`Ppu::tick`]. A frame is 262 scanlines of 341
//! dots: scanlines 0 to 239 are visible, vertical blanking starts at dot 1
//! of scanline 241, and scanline 261 prepares the next frame. For every
//! visible dot the background pixel and its palette are stored in a frame
//! buffer, which is handed over in [`Ppu::frame`] when the pre-render
//! scanline begins.
pub mod address;
pub mod control;
pub mod mask;
pub mod images;
pub mod status;

use vstd::prelude::*;

use crate::cartridge::{Mirroring, NromCartridge};
use crate::cpu::status::{flag, set_flag};
use address::{
    coarse_x_of, coarse_y_of, fine_y_of, lemma_with_nametable, loaded_x, loaded_y, nametable_of,
    next_coarse_x, next_y, top_of, with_coarse_x, with_coarse_y, with_fine_y, with_nametable,
    Address,
};
use control::{Control, BACKGROUND_PATTERN_TABLE, INCREMENT_MODE, NMI_ENABLE};
use mask::{Mask, SHOW_BACKGROUND, SHOW_SPRITES};
use status::{Status, SPRITE_0_HIT, SPRITE_OVERFLOW, VBLANK};

verus! {

/// The size of a nametable in bytes.
pub const NAMETABLE_SIZE: usize = 1024;
/// The size of the palette memory in bytes.
pub const PALETTES_SIZE: usize = 32;
/// The base address of the nametable memory.
pub const BASE_NAMETABLE_ADDRESS: u16 = 0x2000;
/// The base address of the attribute tables.
pub const BASE_ATTRIBUTE_ADDRESS: u16 = 0x23c0;
/// The base address of the palette memory.
pub const BASE_PALETTE_ADDRESS: u16 = 0x3f00;
/// The size of a tile in bytes.
pub const TILE_SIZE: u16 = 16;
/// The size of one plane of a tile in bytes.
pub const TILE_PLANE_SIZE: u16 = 8;
/// The width of the picture in pixels.
pub const WIDTH: usize = 256;
/// The number of pixels in a frame.
pub const FRAME_SIZE: usize = 61440;
/// The number of dots in a scanline.
pub const DOTS: u16 = 341;
/// The number of scanlines in a frame.
pub const SCANLINES: u16 = 262;
/// The scanline that prepares the next frame.
pub const PRERENDER_SCANLINE: u16 = 261;
/// The scanline on which vertical blanking starts.
pub const VBLANK_SCANLINE: u16 = 241;

// ---------------------------------------------------------------------------
// Memory

/// The address that a nametable access to `address` (0x2000-0x3EFF) uses
/// after mirroring: horizontal mirroring folds the second nametable onto the
/// first and the fourth onto the third, which is stored second; vertical
/// mirroring folds the third and fourth onto the first and second.
pub open spec fn nametable_mirror(m: Mirroring, address: u16) -> u16 {
    match m {
        Mirroring::Horizontal => {
            if 0x2400 <= address <= 0x2bff {
                (address - 0x0400) as u16
            } else if 0x2c00 <= address <= 0x2fff {
                (address - 0x0800) as u16
            } else {
                address
            }
        },
        Mirroring::Vertical => {
            if 0x2800 <= address <= 0x2fff {
                (address - 0x0800) as u16
            } else {
                address
            }
        },
    }
}

/// The address that a palette access to `address` (0x3F00-0x3FFF) uses:
/// the 32 bytes repeat, and the first entry of each sprite palette is the
/// first entry of the matching background palette.
pub open spec fn palette_mirror(address: u16) -> u16 {
    let a = address & 0x3f1f;
    if a == 0x3f10 || a == 0x3f14 || a == 0x3f18 || a == 0x3f1c {
        (a - 0x10) as u16
    } else {
        a
    }
}

/// The index in palette memory of the palette address `address`.
pub open spec fn palette_index(address: u16) -> int {
    let i = address as int % 32;
    if i >= 16 && i % 4 == 0 {
        i - 16
    } else {
        i
    }
}

/// Palette addresses are folded onto the 32 bytes of palette memory.
pub proof fn lemma_palette_mirror(address: u16)
    requires
        0x3f00 <= address <= 0x3fff,
    ensures
        palette_mirror(address) - BASE_PALETTE_ADDRESS == palette_index(address),
        0 <= palette_index(address) < 32,
{
    assert(address & 0x3f1f == 0x3f00 + address % 32) by (bit_vector)
        requires
            0x3f00 <= address <= 0x3fff,
    ;
}

/// Folding a palette address twice is folding it once. For an address in
/// 0x3F00-0x3FFF the fold lies in 0x3F00-0x3F1F, is never the first entry of
/// a sprite palette, and keeps the low four bits, with bit 4 too unless the
/// address is the first entry of a sprite palette.
pub proof fn lemma_palette_mirror_idempotent(address: u16)
    by (bit_vector)
    ensures
        palette_mirror(palette_mirror(address)) == palette_mirror(address),
        0x3f00 <= address <= 0x3fff ==> {
            let r = palette_mirror(address);
            &&& 0x3f00 <= r <= 0x3f1f
            &&& r != 0x3f10 && r != 0x3f14 && r != 0x3f18 && r != 0x3f1c
            &&& r == if address & 0x13 == 0x10 {
                0x3f00 | (address & 0x0f)
            } else {
                0x3f00 | (address & 0x1f)
            }
        },
{
}

impl Ppu {
    /// The vectors have their sizes, the position is inside the frame and
    /// the fine X scroll is a pixel of a tile.
    pub open spec fn wf(&self) -> bool {
        &&& self.nametables@.len() == 2 * NAMETABLE_SIZE
        &&& self.palettes@.len() == PALETTES_SIZE
        &&& self.scratch_frame@.len() == FRAME_SIZE
        &&& self.frame@.len() == FRAME_SIZE
        &&& self.cycle < DOTS
        &&& self.scanline < SCANLINES
        &&& self.fine_x_scroll < 8
    }

    /// The index in nametable memory of the nametable address `address`.
    pub open spec fn nametable_index(&self, address: u16) -> int {
        nametable_mirror(self.cartridge.mirroring, address) - BASE_NAMETABLE_ADDRESS
    }

    /// A PPU read of `address` does not panic: pattern addresses fall in the
    /// CHR ROM, and nametable addresses stop at 0x2FFF, which the mirroring
    /// folds onto the two nametables.
    pub open spec fn can_read(&self, address: u16) -> bool {
        &&& address <= 0x3fff
        &&& address < 0x2000 ==> address < self.cartridge.chr_rom@.len()
        &&& !(0x3000 <= address <= 0x3eff)
    }

    /// A PPU write of `address` does not panic: it goes to a nametable (up
    /// to 0x2FFF) or to palette memory.
    pub open spec fn can_write(&self, address: u16) -> bool {
        ||| 0x2000 <= address <= 0x2fff
        ||| 0x3f00 <= address <= 0x3fff
    }

    /// The byte that a PPU read of `address` returns.
    pub open spec fn peek(&self, address: u16) -> u8 {
        if address < 0x2000 {
            self.cartridge.chr_rom@[address as int]
        } else if address < 0x3f00 {
            self.nametables@[self.nametable_index(address)]
        } else {
            self.palettes@[palette_index(address)]
        }
    }

    /// The address of the nametable byte of the tile at `v`.
    pub open spec fn tile_address(v: u16) -> u16 {
        BASE_NAMETABLE_ADDRESS | (v & 0x0fff)
    }

    /// The address of the attribute byte of the tile at `v`.
    pub open spec fn attribute_address(v: u16) -> u16 {
        BASE_ATTRIBUTE_ADDRESS | ((nametable_of(v) as u16) << 10u16) | (((coarse_y_of(v) as u16)
            / 4) << 3u16) | ((coarse_x_of(v) as u16) / 4)
    }

    /// The two palette bits that the attribute byte `byte` gives the tile at
    /// `v`: each byte covers 4x4 tiles, two bits for each 2x2 quarter.
    pub open spec fn attribute_quarter(byte: u8, v: u16) -> u8 {
        ((byte >> (if coarse_y_of(v) & 0x02 != 0 { 4u8 } else { 0u8 })) >> (if coarse_x_of(v) & 0x02
            != 0 {
            2u8
        } else {
            0u8
        })) & 0x03
    }

    /// The base of the pattern table that the background uses.
    pub open spec fn background_table(&self) -> u16 {
        if flag(self.control.0, BACKGROUND_PATTERN_TABLE) {
            0x1000
        } else {
            0x0000
        }
    }

    /// The address of the low plane of the pattern row that the next
    /// background tile shows.
    pub open spec fn pattern_address(&self) -> u16 {
        (self.background_table() + self.nametable_latch * TILE_SIZE + fine_y_of(self.v.0)) as u16
    }

    /// Whether the background or sprites are shown.
    pub open spec fn rendering(&self) -> bool {
        flag(self.mask.0, SHOW_BACKGROUND) || flag(self.mask.0, SHOW_SPRITES)
    }

    /// The amount by which a PPUDATA access advances the VRAM address.
    pub open spec fn data_step(&self) -> int {
        if flag(self.control.0, INCREMENT_MODE) {
            32
        } else {
            1
        }
    }
}

/// A write to PPU memory is read back at every address that shares its
/// byte, and leaves every other readable address as it was. `n` is `s` with
/// the memory that a write of `data` to `address` leaves, as
/// [`Ppu::write_register`] states it for PPUDATA.
pub proof fn lemma_read_after_write(s: Ppu, n: Ppu, address: u16, data: u8, other: u16)
    requires
        s.wf(),
        s.can_write(address),
        s.can_read(other),
        address < 0x3f00 ==> n.nametables@ == s.nametables@.update(
            s.nametable_index(address),
            data,
        ) && n.palettes == s.palettes,
        address >= 0x3f00 ==> n.palettes@ == s.palettes@.update(palette_index(address), data)
            && n.nametables == s.nametables,
        n.cartridge == s.cartridge,
    ensures
        n.peek(address) == data,
        n.peek(other) == if s.same_cell(address, other) {
            data
        } else {
            s.peek(other)
        },
{
    if address >= 0x3f00 {
        lemma_palette_mirror(address);
    }
    if other >= 0x3f00 {
        lemma_palette_mirror(other);
    }
}

/// The nametable byte address of a tile lies in the nametables.
pub proof fn lemma_tile_address(v: u16)
    by (bit_vector)
    ensures
        0x2000 <= BASE_NAMETABLE_ADDRESS | (v & 0x0fff) <= 0x2fff,
{
}

/// A write of `data` to PPUCTRL (0x2000) takes the byte as the control
/// register and puts its low two bits, the nametable select, in the
/// nametable field of the temporary address, whose other fields stay; the
/// VRAM address and the write toggle stay too.
pub proof fn lemma_control_write(s: Ppu, f: Ppu, data: u8)
    requires
        s.wrote_register(f, 0x2000, data),
    ensures
        f.control.0 == data,
        nametable_of(f.t.0) == data % 4,
        coarse_x_of(f.t.0) == coarse_x_of(s.t.0),
        coarse_y_of(f.t.0) == coarse_y_of(s.t.0),
        fine_y_of(f.t.0) == fine_y_of(s.t.0),
        top_of(f.t.0) == top_of(s.t.0),
        f.v == s.v,
        f.w == s.w,
        f.mask == s.mask,
        f.status == s.status,
{
    lemma_with_nametable(s.t.0, data % 4);
}

/// Two writes to PPUSCROLL, starting with the write toggle clear, set the
/// scroll: the first byte's top five bits are the coarse X scroll and its
/// low three the fine X scroll, the second byte's top five bits the coarse
/// Y scroll and its low three the fine Y scroll. The nametable select, the
/// VRAM address and the toggle, clear again, are as they were.
pub proof fn lemma_scroll_writes(s: Ppu, m: Ppu, f: Ppu, x: u8, y: u8)
    requires
        !s.w,
        s.wrote_register(m, 0x2005, x),
        m.wrote_register(f, 0x2005, y),
    ensures
        coarse_x_of(f.t.0) == x / 8,
        f.fine_x_scroll == x % 8,
        coarse_y_of(f.t.0) == y / 8,
        fine_y_of(f.t.0) == y % 8,
        nametable_of(f.t.0) == nametable_of(s.t.0),
        top_of(f.t.0) == top_of(s.t.0),
        f.v == s.v,
        !f.w,
{
    let t = s.t.0;
    assert({
        let t1 = with_coarse_x(t, x / 8);
        let t2 = with_coarse_y(with_fine_y(t1, y % 8), y / 8);
        &&& coarse_x_of(t2) == x / 8
        &&& coarse_y_of(t2) == y / 8
        &&& fine_y_of(t2) == y % 8
        &&& nametable_of(t2) == nametable_of(t)
        &&& top_of(t2) == top_of(t)
    }) by (bit_vector);
}

/// Two writes to PPUADDR, starting with the write toggle clear, load the
/// VRAM address: its bits 8-13 are the first byte's low six bits, its low
/// byte is the second byte, and its top two bits are those of the
/// temporary address before; the temporary address is the same, and the
/// toggle is clear again.
pub proof fn lemma_address_writes(s: Ppu, m: Ppu, f: Ppu, high: u8, low: u8)
    requires
        !s.w,
        s.wrote_register(m, 0x2006, high),
        m.wrote_register(f, 0x2006, low),
    ensures
        f.v.0 as int == (s.t.0 / 0x4000) * 0x4000 + (high % 64) * 256 + low,
        f.t == f.v,
        !f.w,
{
    let t = s.t.0;
    assert({
        let t1 = (t & !0x3f00u16) | ((((high % 64) as u16) & 0x3f) << 8u16);
        let t2 = (t1 & 0xff00) | (low as u16);
        t2 as int == (t / 0x4000) * 0x4000 + (high % 64) * 256 + low
    }) by (bit_vector);
}

/// Mirroring keeps the offset inside a nametable and picks the physical
/// nametable of the logical one (0-3) that `address` falls in: vertical
/// mirroring shares nametables 0 and 2, and 1 and 3; horizontal mirroring
/// shares 0 and 1, and 2 and 3.
pub proof fn lemma_nametable_mirror(m: Mirroring, address: u16)
    requires
        0x2000 <= address <= 0x2fff,
    ensures
        ({
            let k = (address - 0x2000) / 0x400;
            let offset = (address - 0x2000) % 0x400;
            &&& m is Vertical ==> nametable_mirror(m, address) == 0x2000 + 0x400 * (k % 2) + offset
            &&& m is Horizontal ==> nametable_mirror(m, address) == 0x2000 + 0x400 * (k / 2)
                + offset
        }),
{
}

/// Reading PPUSTATUS gives the status flags in the top three bits and the
/// low five bits of the read buffer below them, then clears the vblank flag,
/// keeps the other status flags and clears the write toggle.
pub proof fn lemma_status_read(s: Ppu, k: u8)
    requires
        k < 8,
        k != VBLANK,
    ensures
        s.register_value(0x2002) / 32 == s.status.0 / 32,
        s.register_value(0x2002) % 32 == (s.read_buffer % 32) | (s.status.0 % 32),
        !flag(s.after_register_read(0x2002).status.0, VBLANK),
        flag(s.after_register_read(0x2002).status.0, k) == flag(s.status.0, k),
        !s.after_register_read(0x2002).w,
{
    let st = s.status.0;
    let rb = s.read_buffer;
    assert((st | (rb & 0x1f)) / 32 == st / 32 && (st | (rb & 0x1f)) % 32 == (rb % 32) | (st % 32))
        by (bit_vector);
    crate::cpu::status::lemma_set_flag(st, VBLANK, VBLANK, false);
    crate::cpu::status::lemma_set_flag(st, VBLANK, k, false);
}

/// The palette bits of a tile are the two bits of its attribute byte that
/// cover its 2x2 quarter of the byte's 4x4 tiles: bits 1-0 for the top-left
/// quarter, 3-2 for the top-right, 5-4 for the bottom-left and 7-6 for the
/// bottom-right. The quarter is right when bit 1 of the coarse X scroll is
/// set, and bottom when bit 1 of the coarse Y scroll is.
pub proof fn lemma_attribute_quarter(byte: u8, v: u16)
    ensures
        ({
            let right = coarse_x_of(v) % 4 >= 2;
            let bottom = coarse_y_of(v) % 4 >= 2;
            let q = Ppu::attribute_quarter(byte, v);
            &&& !bottom && !right ==> q == byte % 4
            &&& !bottom && right ==> q == (byte / 4) % 4
            &&& bottom && !right ==> q == (byte / 16) % 4
            &&& bottom && right ==> q == byte / 64
        }),
{
    assert(({
        let right = coarse_x_of(v) % 4 >= 2;
        let bottom = coarse_y_of(v) % 4 >= 2;
        let q = Ppu::attribute_quarter(byte, v);
        &&& !bottom && !right ==> q == byte % 4
        &&& !bottom && right ==> q == (byte / 4) % 4
        &&& bottom && !right ==> q == (byte / 16) % 4
        &&& bottom && right ==> q == byte / 64
    })) by (bit_vector);
}

/// The attribute byte of a tile follows its nametable's 960 tile bytes:
/// one byte for each 4x4 tiles, eight bytes to a row of them.
pub proof fn lemma_attribute_address_layout(v: u16)
    ensures
        Ppu::attribute_address(v) as int == 0x23c0 + 0x400 * nametable_of(v) + 8 * (coarse_y_of(v)
            / 4) + coarse_x_of(v) / 4,
{
    assert(Ppu::attribute_address(v) as int == 0x23c0 + 0x400 * nametable_of(v) + 8 * (coarse_y_of(
        v,
    ) / 4) + coarse_x_of(v) / 4) by (bit_vector);
}

/// The attribute byte address of a tile lies in the nametables.
pub proof fn lemma_attribute_address(n: u16, y: u16, x: u16)
    by (bit_vector)
    requires
        n < 4,
        y < 32,
        x < 32,
    ensures
        0x2000 <= BASE_ATTRIBUTE_ADDRESS | (n << 10u16) | ((y / 4) << 3u16) | (x / 4) <= 0x2fff,
{
}

// ---------------------------------------------------------------------------
// Rendering

/// Bit `k` from the top of the 16-bit shifter `s`.
pub open spec fn top_bit16(s: u16, k: u8) -> bool {
    s & (0x8000u16 >> k) != 0
}

/// Bit `k` from the top of the 8-bit shifter `s`.
pub open spec fn top_bit8(s: u8, k: u8) -> bool {
    s & (0x80u8 >> k) != 0
}

/// A two-bit value from its high and low bits.
pub open spec fn two_bits(high: bool, low: bool) -> u8 {
    ((if high { 2int } else { 0int }) + (if low { 1int } else { 0int })) as u8
}

impl Ppu {
    /// The pixel value and palette that the shifters hold for the current
    /// dot.
    pub open spec fn pixel(&self) -> (u8, u8) {
        (
            two_bits(
                top_bit16(self.tile_shifter_high, self.fine_x_scroll),
                top_bit16(self.tile_shifter_low, self.fine_x_scroll),
            ),
            two_bits(
                top_bit8(self.attribute_shifter_high, self.fine_x_scroll),
                top_bit8(self.attribute_shifter_low, self.fine_x_scroll),
            ),
        )
    }

    /// The dot is on a visible scanline or on the pre-render scanline.
    pub open spec fn on_render_line(&self) -> bool {
        self.scanline < 240 || self.scanline == PRERENDER_SCANLINE
    }

    /// The dot shifts the background shifters and takes part in a tile
    /// fetch.
    pub open spec fn on_fetch_dot(&self) -> bool {
        &&& self.on_render_line()
        &&& (1 <= self.cycle <= 256 || 321 <= self.cycle <= 337)
    }

    /// The dot is the first of vertical blanking.
    pub open spec fn on_vblank_start(&self) -> bool {
        self.scanline == VBLANK_SCANLINE && self.cycle == 1
    }

    /// The dot is the one on which the pre-render scanline clears the flags.
    pub open spec fn on_flag_clear(&self) -> bool {
        self.scanline == PRERENDER_SCANLINE && self.cycle == 1
    }

    /// The VRAM address after this dot: the vertical scroll is reloaded from
    /// `t` on dots 280 to 304 of the pre-render scanline, the tile column
    /// advances every eighth fetch dot, the row advances on dot 256 and the
    /// horizontal scroll is reloaded from `t` on dot 257; all only while
    /// rendering.
    pub open spec fn next_v(&self) -> u16 {
        let v = self.v.0;
        let c = self.cycle;
        if !self.rendering() {
            v
        } else if self.scanline == PRERENDER_SCANLINE && 280 <= c <= 304 {
            loaded_y(v, self.t.0)
        } else if self.on_render_line() && c == 256 {
            next_y(next_coarse_x(v))
        } else if self.on_fetch_dot() && c % 8 == 0 {
            next_coarse_x(v)
        } else if self.on_render_line() && c == 257 {
            loaded_x(v, self.t.0)
        } else {
            v
        }
    }

    /// The low tile shifter after this dot's shift and reload.
    pub open spec fn next_tile_shifter(&self, shifter: u16, latch: u8) -> u16 {
        if self.on_fetch_dot() {
            let s = shifter << 1u16;
            if self.cycle % 8 == 1 {
                (s & 0xff00) | (latch as u16)
            } else {
                s
            }
        } else {
            shifter
        }
    }

    /// An attribute shifter after this dot's shift, taking in `bit`.
    pub open spec fn next_attribute_shifter(&self, shifter: u8, bit: u8) -> u8 {
        if self.on_fetch_dot() {
            (shifter << 1u8) | bit
        } else {
            shifter
        }
    }

    /// The index of the current dot within the frame.
    pub open spec fn position(&self) -> int {
        self.scanline * DOTS + self.cycle
    }

    /// The addresses `a` and `b`, both readable, name the same byte of
    /// nametable or palette memory.
    pub open spec fn same_cell(&self, a: u16, b: u16) -> bool {
        ||| 0x2000 <= a < 0x3f00 && 0x2000 <= b < 0x3f00 && self.nametable_index(a)
            == self.nametable_index(b)
        ||| 0x3f00 <= a && 0x3f00 <= b && palette_index(a) == palette_index(b)
    }

    /// The pattern fetches of this dot, if it has any, fall inside the CHR
    /// ROM.
    pub open spec fn pattern_fetch_ok(&self) -> bool {
        &&& self.cycle % 8 == 5 ==> (self.pattern_address() as int) < self.cartridge.chr_rom@.len()
        &&& self.cycle % 8 == 7 ==> self.pattern_address() + TILE_PLANE_SIZE
            < self.cartridge.chr_rom@.len()
    }

    /// A tick does not panic: the pattern fetches of a fetch dot fall inside
    /// the CHR ROM.
    pub open spec fn can_tick(&self) -> bool {
        &&& self.wf()
        &&& self.on_fetch_dot() ==> self.pattern_fetch_ok()
    }

    /// The nametable byte latch after this dot.
    pub open spec fn next_nametable_latch(&self) -> u8 {
        if (self.on_fetch_dot() && self.cycle % 8 == 1) || (self.on_render_line() && self.cycle
            == 339) {
            self.peek(Ppu::tile_address(self.v.0))
        } else {
            self.nametable_latch
        }
    }

    /// The attribute bits after this dot.
    pub open spec fn next_attribute_bits(&self) -> u8 {
        if self.on_fetch_dot() && self.cycle % 8 == 3 {
            Ppu::attribute_quarter(self.peek(Ppu::attribute_address(self.v.0)), self.v.0)
        } else {
            self.attribute_bits
        }
    }

    /// The attribute latch after this dot.
    pub open spec fn next_attribute_latch(&self) -> u8 {
        if self.on_fetch_dot() && self.cycle % 8 == 1 {
            self.attribute_bits
        } else {
            self.attribute_latch
        }
    }

    /// The low pattern plane latch after this dot.
    pub open spec fn next_tile_latch_low(&self) -> u8 {
        if self.on_fetch_dot() && self.cycle % 8 == 5 {
            self.peek(self.pattern_address())
        } else {
            self.tile_latch_low
        }
    }

    /// The high pattern plane latch after this dot.
    pub open spec fn next_tile_latch_high(&self) -> u8 {
        if self.on_fetch_dot() && self.cycle % 8 == 7 {
            self.peek((self.pattern_address() + TILE_PLANE_SIZE) as u16)
        } else {
            self.tile_latch_high
        }
    }

    /// The status register after this dot: the pre-render scanline clears
    /// the sprite flags and the vertical blank flag on its first dot, and
    /// vertical blanking sets the vertical blank flag.
    pub open spec fn next_status(&self) -> u8 {
        if self.on_flag_clear() {
            set_flag(
                set_flag(set_flag(self.status.0, SPRITE_OVERFLOW, false), SPRITE_0_HIT, false),
                VBLANK,
                false,
            )
        } else if self.on_vblank_start() {
            set_flag(self.status.0, VBLANK, true)
        } else {
            self.status.0
        }
    }

    /// The NMI output after this dot: raised at the start of vertical
    /// blanking when PPUCTRL enables it, and lowered by the pre-render
    /// scanline.
    pub open spec fn next_nmi(&self) -> bool {
        if self.on_flag_clear() {
            false
        } else if self.on_vblank_start() {
            flag(self.control.0, NMI_ENABLE)
        } else {
            self.nmi
        }
    }

    /// The frame buffer after this dot: a visible dot stores its pixel while
    /// rendering.
    pub open spec fn next_scratch_frame(&self) -> Seq<(u8, u8)> {
        if self.rendering() && self.scanline < 240 && self.cycle < 256 {
            self.scratch_frame@.update(
                self.scanline * WIDTH + self.cycle,
                self.shifted().pixel(),
            )
        } else {
            self.scratch_frame@
        }
    }

    /// This dot is the last before the pre-render scanline, where the frame
    /// is handed over.
    pub open spec fn ends_frame(&self) -> bool {
        self.scanline == PRERENDER_SCANLINE - 1 && self.cycle == DOTS - 1
    }

    /// A register read of `address` does not panic: only PPUSTATUS and
    /// PPUDATA are readable, and PPUDATA must not carry the VRAM address
    /// past 0xFFFF.
    pub open spec fn can_read_register(&self, address: u16) -> bool {
        &&& self.wf()
        &&& address == 0x2002 || address == 0x2007
        &&& address == 0x2007 ==> self.v.0 + self.data_step() <= u16::MAX
    }

    /// The byte that a register read of `address` returns: PPUSTATUS gives
    /// the status flags over the low five bits of the read buffer, PPUDATA
    /// gives the read buffer.
    pub open spec fn register_value(&self, address: u16) -> u8 {
        if address == 0x2002 {
            self.status.0 | (self.read_buffer & 0x1f)
        } else {
            self.read_buffer
        }
    }

    /// The PPU after a register read of `address`: PPUSTATUS clears the
    /// vertical blank flag and the write toggle; PPUDATA refills the read
    /// buffer with the PPU byte at `address` and advances the VRAM address.
    pub open spec fn after_register_read(&self, address: u16) -> Ppu {
        if address == 0x2002 {
            Ppu { status: Status(set_flag(self.status.0, VBLANK, false)), w: false, ..*self }
        } else {
            Ppu {
                read_buffer: self.peek(address),
                v: Address((self.v.0 + self.data_step()) as u16),
                ..*self
            }
        }
    }

    /// A register write to `address` does not panic: a PPUDATA write must go
    /// to a nametable or palette address, and must not carry the VRAM
    /// address past 0xFFFF.
    pub open spec fn can_write_register(&self, address: u16) -> bool {
        &&& self.wf()
        &&& address == 0x2007 ==> self.can_write(self.v.0)
        &&& address == 0x2007 ==> self.v.0 + self.data_step() <= u16::MAX
    }

    /// `f` is the PPU after a write of `data` to the register at `address`.
    pub open spec fn wrote_register(&self, f: Ppu, address: u16, data: u8) -> bool {
        &&& address == 0x2000 ==> f == (Ppu {
            control: Control(data),
            t: Address(with_nametable(self.t.0, data % 4)),
            ..*self
        })
        &&& address == 0x2001 ==> f == (Ppu { mask: Mask(data), ..*self })
        &&& address == 0x2005 && !self.w ==> f == (Ppu {
            fine_x_scroll: data % 8,
            t: Address(with_coarse_x(self.t.0, data / 8)),
            w: true,
            ..*self
        })
        &&& address == 0x2005 && self.w ==> f == (Ppu {
            t: Address(with_coarse_y(with_fine_y(self.t.0, data % 8), data / 8)),
            w: false,
            ..*self
        })
        &&& address == 0x2006 && !self.w ==> f == (Ppu {
            t: Address((self.t.0 & !0x3f00u16) | ((((data % 64) as u16) & 0x3f) << 8u16)),
            w: true,
            ..*self
        })
        &&& address == 0x2006 && self.w ==> f == (Ppu {
            t: Address((self.t.0 & 0xff00) | (data as u16)),
            v: Address((self.t.0 & 0xff00) | (data as u16)),
            w: false,
            ..*self
        })
        &&& address == 0x2007 ==> {
            &&& self.v.0 < 0x3f00 ==> f.nametables@ == self.nametables@.update(
                self.nametable_index(self.v.0),
                data,
            ) && f.palettes == self.palettes
            &&& self.v.0 >= 0x3f00 ==> f.palettes@ == self.palettes@.update(
                palette_index(self.v.0),
                data,
            ) && f.nametables == self.nametables
            &&& f == (Ppu {
                nametables: f.nametables,
                palettes: f.palettes,
                v: Address((self.v.0 + self.data_step()) as u16),
                ..*self
            })
        }
        &&& !(0x2000 <= address <= 0x2001 || 0x2005 <= address <= 0x2007) ==> f == *self
    }

    /// `f` is the PPU one dot after `self`.
    pub open spec fn ticks_to(&self, f: Ppu) -> bool {
        &&& f.wf()
        &&& f.cycle == (self.cycle + 1) % (DOTS as int)
        &&& f.scanline == if self.cycle == DOTS - 1 {
            (self.scanline + 1) % (SCANLINES as int)
        } else {
            self.scanline as int
        }
        &&& f.position() == (self.position() + 1) % (DOTS * SCANLINES)
        &&& f.v.0 == self.next_v()
        &&& f.status.0 == self.next_status()
        &&& f.nmi == self.next_nmi()
        &&& f.nametable_latch == self.next_nametable_latch()
        &&& f.attribute_bits == self.next_attribute_bits()
        &&& f.attribute_latch == self.next_attribute_latch()
        &&& f.tile_latch_low == self.next_tile_latch_low()
        &&& f.tile_latch_high == self.next_tile_latch_high()
        &&& f.tile_shifter_low == self.shifted().tile_shifter_low
        &&& f.tile_shifter_high == self.shifted().tile_shifter_high
        &&& f.attribute_shifter_low == self.shifted().attribute_shifter_low
        &&& f.attribute_shifter_high == self.shifted().attribute_shifter_high
        &&& f.scratch_frame@ == self.next_scratch_frame()
        &&& self.ends_frame() ==> f.is_frame_ready && f.frame@ == f.scratch_frame@
        &&& !self.ends_frame() ==> f.is_frame_ready == self.is_frame_ready && f.frame
            == self.frame
        &&& f.cartridge == self.cartridge
        &&& f.nametables == self.nametables
        &&& f.palettes == self.palettes
        &&& f.read_buffer == self.read_buffer
        &&& f.control == self.control
        &&& f.mask == self.mask
        &&& f.t == self.t
        &&& f.fine_x_scroll == self.fine_x_scroll
        &&& f.w == self.w
    }

    /// The PPU after this dot's shifts, before the pixel is drawn.
    pub open spec fn shifted(&self) -> Ppu {
        Ppu {
            tile_shifter_low: self.next_tile_shifter(self.tile_shifter_low, self.tile_latch_low),
            tile_shifter_high: self.next_tile_shifter(self.tile_shifter_high, self.tile_latch_high),
            attribute_shifter_low: self.next_attribute_shifter(
                self.attribute_shifter_low,
                self.attribute_latch & 1,
            ),
            attribute_shifter_high: self.next_attribute_shifter(
                self.attribute_shifter_high,
                (self.attribute_latch & 2) >> 1u8,
            ),
            ..*self
        }
    }
}

/// A frame of blank pixels with palette 0.
pub fn blank_frame() -> (frame: Vec<(u8, u8)>)
    ensures
        frame@ == Seq::new(FRAME_SIZE as nat, |i: int| (0u8, 0u8)),
{
    let mut frame: Vec<(u8, u8)> = Vec::new();
    let mut i: usize = 0;
    while i < FRAME_SIZE
        invariant
            i <= FRAME_SIZE,
            frame@ == Seq::new(i as nat, |k: int| (0u8, 0u8)),
        decreases FRAME_SIZE - i,
    {
        frame.push((0, 0));
        i = i + 1;
        assert(frame@ =~= Seq::new(i as nat, |k: int| (0u8, 0u8)));
    }
    frame
}

/// Copies `src` into `dst`, which has its length.
pub fn copy_frame(dst: &mut Vec<(u8, u8)>, src: &Vec<(u8, u8)>)
    requires
        old(dst)@.len() == src@.len(),
    ensures
        final(dst)@ == src@,
{
    let mut i: usize = 0;
    while i < src.len()
        invariant
            i <= src@.len(),
            dst@.len() == src@.len(),
            forall|k: int| 0 <= k < i ==> dst@[k] == src@[k],
        decreases src@.len() - i,
    {
        dst.set(i, src[i]);
        i = i + 1;
    }
    assert(dst@ =~= src@);
}

/// The picture processing unit, with the cartridge whose CHR ROM holds the
/// pattern tables.
pub struct Ppu {
    /// The cartridge.
    pub cartridge: NromCartridge,
    /// The two physical nametables.
    pub nametables: Vec<u8>,
    /// The palette memory.
    pub palettes: Vec<u8>,
    /// The byte that the next PPUDATA read returns.
    pub read_buffer: u8,
    /// The control register.
    pub control: Control,
    /// The mask register.
    pub mask: Mask,
    /// The status register.
    pub status: Status,
    /// The VRAM address.
    pub v: Address,
    /// The temporary VRAM address.
    pub t: Address,
    /// The fine X scroll.
    pub fine_x_scroll: u8,
    /// The write toggle shared by PPUSCROLL and PPUADDR.
    pub w: bool,
    /// The dot within the scanline.
    pub cycle: u16,
    /// The scanline.
    pub scanline: u16,
    /// The NMI output.
    pub nmi: bool,
    /// The nametable byte of the next tile.
    pub nametable_latch: u8,
    /// The palette bits of the next tile.
    pub attribute_bits: u8,
    /// The palette bits of the tile being loaded into the shifters.
    pub attribute_latch: u8,
    /// The low pattern plane of the next tile.
    pub tile_latch_low: u8,
    /// The high pattern plane of the next tile.
    pub tile_latch_high: u8,
    /// The low pattern plane shifter.
    pub tile_shifter_low: u16,
    /// The high pattern plane shifter.
    pub tile_shifter_high: u16,
    /// The low palette bit shifter.
    pub attribute_shifter_low: u8,
    /// The high palette bit shifter.
    pub attribute_shifter_high: u8,
    /// The frame being drawn, one (pixel, palette) pair per dot.
    pub scratch_frame: Vec<(u8, u8)>,
    /// The last complete frame.
    pub frame: Vec<(u8, u8)>,
    /// Whether a frame has been completed.
    pub is_frame_ready: bool,
}

impl Ppu {
    /// `self` is the PPU at power-on with `cartridge`: at the first dot of
    /// the first scanline, with cleared memory, registers, latches and
    /// shifters, and no frame complete.
    pub open spec fn power_on(&self, cartridge: NromCartridge) -> bool {
        &&& self.wf()
        &&& self.cartridge == cartridge
        &&& self.nametables@ == Seq::new(2 * NAMETABLE_SIZE as nat, |i: int| 0u8)
        &&& self.palettes@ == Seq::new(PALETTES_SIZE as nat, |i: int| 0u8)
        &&& self.scratch_frame@ == Seq::new(FRAME_SIZE as nat, |i: int| (0u8, 0u8))
        &&& self.frame@ == Seq::new(FRAME_SIZE as nat, |i: int| (0u8, 0u8))
        &&& self.read_buffer == 0
        &&& self.control.0 == 0
        &&& self.mask.0 == 0
        &&& self.status.0 == 0
        &&& self.v.0 == 0
        &&& self.t.0 == 0
        &&& self.fine_x_scroll == 0
        &&& !self.w
        &&& self.cycle == 0
        &&& self.scanline == 0
        &&& !self.nmi
        &&& self.nametable_latch == 0
        &&& self.attribute_bits == 0
        &&& self.attribute_latch == 0
        &&& self.tile_latch_low == 0
        &&& self.tile_latch_high == 0
        &&& self.tile_shifter_low == 0
        &&& self.tile_shifter_high == 0
        &&& self.attribute_shifter_low == 0
        &&& self.attribute_shifter_high == 0
        &&& !self.is_frame_ready
    }

    /// Creates a PPU, at the first dot of the first scanline, with cleared
    /// memory and registers.
    pub fn new(cartridge: NromCartridge) -> (ppu: Ppu)
        ensures
            ppu.power_on(cartridge),
    {
        let nametables: Vec<u8> = vec![0; 2 * NAMETABLE_SIZE];
        let palettes: Vec<u8> = vec![0; PALETTES_SIZE];
        let scratch_frame = blank_frame();
        let frame = blank_frame();
        assert(nametables@ =~= Seq::new(2 * NAMETABLE_SIZE as nat, |i: int| 0u8));
        assert(palettes@ =~= Seq::new(PALETTES_SIZE as nat, |i: int| 0u8));
        Ppu {
            cartridge,
            nametables,
            palettes,
            read_buffer: 0,
            control: Control(0),
            mask: Mask(0),
            status: Status(0),
            v: Address(0),
            t: Address(0),
            fine_x_scroll: 0,
            w: false,
            cycle: 0,
            scanline: 0,
            nmi: false,
            nametable_latch: 0,
            attribute_bits: 0,
            attribute_latch: 0,
            tile_latch_low: 0,
            tile_latch_high: 0,
            tile_shifter_low: 0,
            tile_shifter_high: 0,
            attribute_shifter_low: 0,
            attribute_shifter_high: 0,
            scratch_frame,
            frame,
            is_frame_ready: false,
        }
    }

    /// Whether the vectors have their sizes and the position and fine X
    /// scroll are in range.
    pub fn is_wf(&self) -> (r: bool)
        ensures
            r == self.wf(),
    {
        self.nametables.len() == 2 * NAMETABLE_SIZE && self.palettes.len() == PALETTES_SIZE
            && self.scratch_frame.len() == FRAME_SIZE && self.frame.len() == FRAME_SIZE
            && self.cycle < DOTS && self.scanline < SCANLINES && self.fine_x_scroll < 8
    }

    /// Whether a read of the register at `address` is defined.
    pub fn register_readable(&self, address: u16) -> (r: bool)
        ensures
            r == self.can_read_register(address),
    {
        if !self.is_wf() {
            false
        } else if address == 0x2002 {
            true
        } else if address == 0x2007 {
            let step: u16 = if self.control.increment_mode() { 32 } else { 1 };
            self.v.0 <= u16::MAX - step
        } else {
            false
        }
    }

    /// Whether a write to the register at `address` is defined.
    pub fn register_writable(&self, address: u16) -> (r: bool)
        ensures
            r == self.can_write_register(address),
    {
        if !self.is_wf() {
            false
        } else if address == 0x2007 {
            let v = self.v.0;
            let step: u16 = if self.control.increment_mode() { 32 } else { 1 };
            ((0x2000 <= v && v <= 0x2fff) || (0x3f00 <= v && v <= 0x3fff)) && v <= u16::MAX - step
        } else {
            true
        }
    }

    /// Whether a tick is defined.
    pub fn tick_safe(&self) -> (r: bool)
        ensures
            r == self.can_tick(),
    {
        if !self.is_wf() {
            return false;
        }
        let render_line = self.scanline < 240 || self.scanline == PRERENDER_SCANLINE;
        let fetch_dot = render_line && ((1 <= self.cycle && self.cycle <= 256) || (321
            <= self.cycle && self.cycle <= 337));
        if !fetch_dot {
            return true;
        }
        let pattern = self.background_pattern_table_address() + (self.nametable_latch as u16
            * TILE_SIZE) + self.v.fine_y_scroll() as u16;
        let len = self.cartridge.chr_rom.len();
        if self.cycle % 8 == 5 {
            (pattern as usize) < len
        } else if self.cycle % 8 == 7 {
            ((pattern + TILE_PLANE_SIZE) as usize) < len
        } else {
            true
        }
    }

    /// Reads the byte at PPU address `address`.
    pub fn read_data(&self, address: u16) -> (data: u8)
        requires
            self.wf(),
            self.can_read(address),
        ensures
            data == self.peek(address),
    {
        if address <= 0x1fff {
            self.cartridge._read_chr(address)
        } else if address <= 0x3eff {
            let mirrored_address = self.mirror_nametable_address(address);
            self.nametables[(mirrored_address - BASE_NAMETABLE_ADDRESS) as usize]
        } else {
            proof {
                lemma_palette_mirror(address);
            }
            let mirrored_address = self.mirror_palette_address(address);
            self.palettes[(mirrored_address - BASE_PALETTE_ADDRESS) as usize]
        }
    }

    /// Writes `data` to PPU address `address`.
    fn write_data(&mut self, address: u16, data: u8)
        requires
            old(self).wf(),
            old(self).can_write(address),
        ensures
            final(self).wf(),
            address < 0x3f00 ==> final(self).nametables@ == old(self).nametables@.update(
                old(self).nametable_index(address),
                data,
            ) && final(self).palettes == old(self).palettes,
            address >= 0x3f00 ==> final(self).palettes@ == old(self).palettes@.update(
                palette_index(address),
                data,
            ) && final(self).nametables == old(self).nametables,
            *final(self) == (Ppu {
                nametables: final(self).nametables,
                palettes: final(self).palettes,
                ..*old(self)
            }),
    {
        if address <= 0x3eff {
            let mirrored_address = self.mirror_nametable_address(address);
            self.nametables.set((mirrored_address - BASE_NAMETABLE_ADDRESS) as usize, data);
        } else {
            proof {
                lemma_palette_mirror(address);
            }
            let mirrored_address = self.mirror_palette_address(address);
            self.palettes.set((mirrored_address - BASE_PALETTE_ADDRESS) as usize, data);
        }
    }

    /// Reads the PPU register at CPU address `address`: PPUSTATUS (0x2002)
    /// or PPUDATA (0x2007).
    ///
    /// PPUSTATUS returns the status flags over the low bits of the read
    /// buffer, and clears the vertical blank flag and the write toggle.
    /// PPUDATA returns the read buffer, refills it with the PPU byte at
    /// `address` and advances the VRAM address.
    pub fn read_register(&mut self, address: u16) -> (data: u8)
        requires
            old(self).can_read_register(address),
        ensures
            final(self).wf(),
            data == old(self).register_value(address),
            *final(self) == old(self).after_register_read(address),
    {
        if address == 0x2002 {
            let data = self.status.0 | (self.read_buffer & 0x1f);
            self.status.set_vblank(false);
            self.w = false;
            data
        } else {
            let data = if address < BASE_PALETTE_ADDRESS {
                self.read_buffer
            } else {
                self.read_data(address)
            };
            self.read_buffer = self.read_data(address);
            let mode = self.control.increment_mode();
            self.v.increment(mode);
            data
        }
    }

    /// Writes `data` to the PPU register at CPU address `address`.
    ///
    /// PPUCTRL (0x2000) and PPUMASK (0x2001) take the byte, PPUCTRL also
    /// selecting the nametable in `t`. PPUSCROLL (0x2005) takes the X scroll
    /// and then the Y scroll into `t` and the fine X scroll, and PPUADDR
    /// (0x2006) takes the high and then the low byte into `t`, copying it to
    /// `v` after the low byte; both flip the write toggle. PPUDATA (0x2007)
    /// stores the byte at `v` and advances `v`. Other registers ignore the
    /// write.
    pub fn write_register(&mut self, address: u16, data: u8)
        requires
            old(self).can_write_register(address),
        ensures
            final(self).wf(),
            old(self).wrote_register(*final(self), address, data),
    {
        if address == 0x2000 {
            self.control = Control(data);
            let n = self.control.nametable();
            self.t.set_nametable(n);
        } else if address == 0x2001 {
            self.mask = Mask(data);
        } else if address == 0x2005 {
            if !self.w {
                self.fine_x_scroll = data % 8;
                self.t.set_coarse_x_scroll(data / 8);
            } else {
                self.t.set_fine_y_scroll(data % 8);
                self.t.set_coarse_y_scroll(data / 8);
            }
            self.w = !self.w;
        } else if address == 0x2006 {
            if !self.w {
                self.t.set_high(data % 64);
            } else {
                self.t.set_low(data);
                self.v = Address(self.t.0);
            }
            self.w = !self.w;
        } else if address == 0x2007 {
            self.write_data(self.v.0, data);
            let mode = self.control.increment_mode();
            self.v.increment(mode);
        }
    }

    /// Reads the nametable byte of the tile at `v`.
    fn fetch_nametable_byte(&self) -> (r: u8)
        requires
            self.wf(),
        ensures
            r == self.peek(Ppu::tile_address(self.v.0)),
    {
        proof {
            lemma_tile_address(self.v.0);
        }
        // The bottom 12 bits of v are the address of the next tile in
        // nametable memory.
        self.read_data(BASE_NAMETABLE_ADDRESS | (self.v.0 & 0x0fff))
    }

    /// Reads the palette bits of the tile at `v` from its attribute byte.
    fn fetch_attribute_bits(&self) -> (r: u8)
        requires
            self.wf(),
        ensures
            r == Ppu::attribute_quarter(self.peek(Ppu::attribute_address(self.v.0)), self.v.0),
    {
        let n = self.v.nametable();
        let y = self.v.coarse_y_scroll();
        let x = self.v.coarse_x_scroll();
        proof {
            lemma_attribute_address(n as u16, y as u16, x as u16);
        }
        // Divide the coarse offsets by four since each attribute byte applies
        // to a 4x4 group of tiles.
        let attribute_address = BASE_ATTRIBUTE_ADDRESS | ((n as u16) << 10u16) | (((y as u16) / 4)
            << 3u16) | ((x as u16) / 4);
        let mut attribute_byte = self.read_data(attribute_address);

        // The attribute byte is divided into four 2-bit areas that specify the
        // palettes for four 2x2 tile groups. The bottom row of a 2x2 group is
        // covered by the four leftmost bits, and the right column by the two
        // leftmost bits of each half.
        attribute_byte = attribute_byte >> (if y & 0x02 != 0 { 4u8 } else { 0u8 });
        attribute_byte = attribute_byte >> (if x & 0x02 != 0 { 2u8 } else { 0u8 });

        // Mask off the rest of the bits.
        attribute_byte & 0x03
    }

    /// The base of the background pattern table.
    fn background_pattern_table_address(&self) -> (r: u16)
        ensures
            r == self.background_table(),
    {
        if self.control.background_pattern_table() {
            0x1000
        } else {
            0x0000
        }
    }

    /// Performs the part of a tile fetch that falls on this dot: the dots
    /// of each group of eight load the shifters and fetch the nametable
    /// byte, the attribute bits and the two pattern planes, and the last
    /// moves `v` to the next tile column while rendering.
    fn fetch_tile_data(&mut self)
        requires
            old(self).wf(),
            old(self).pattern_fetch_ok(),
        ensures
            final(self).wf(),
            ({
                let o = *old(self);
                let c = o.cycle % 8;
                *final(self) == (Ppu {
                    tile_shifter_low: if c == 1 {
                        (o.tile_shifter_low & 0xff00) | (o.tile_latch_low as u16)
                    } else {
                        o.tile_shifter_low
                    },
                    tile_shifter_high: if c == 1 {
                        (o.tile_shifter_high & 0xff00) | (o.tile_latch_high as u16)
                    } else {
                        o.tile_shifter_high
                    },
                    attribute_latch: if c == 1 {
                        o.attribute_bits
                    } else {
                        o.attribute_latch
                    },
                    nametable_latch: if c == 1 {
                        o.peek(Ppu::tile_address(o.v.0))
                    } else {
                        o.nametable_latch
                    },
                    attribute_bits: if c == 3 {
                        Ppu::attribute_quarter(o.peek(Ppu::attribute_address(o.v.0)), o.v.0)
                    } else {
                        o.attribute_bits
                    },
                    tile_latch_low: if c == 5 {
                        o.peek(o.pattern_address())
                    } else {
                        o.tile_latch_low
                    },
                    tile_latch_high: if c == 7 {
                        o.peek((o.pattern_address() + TILE_PLANE_SIZE) as u16)
                    } else {
                        o.tile_latch_high
                    },
                    v: if c == 0 && o.rendering() {
                        Address(next_coarse_x(o.v.0))
                    } else {
                        o.v
                    },
                    ..o
                })
            }),
    {
        let c = self.cycle % 8;
        if c == 1 {
            self.reload_background_shifters();
            self.nametable_latch = self.fetch_nametable_byte();
        } else if c == 3 {
            self.attribute_bits = self.fetch_attribute_bits();
        } else if c == 5 {
            let address = self.background_pattern_table_address() + (self.nametable_latch as u16
                * TILE_SIZE) + self.v.fine_y_scroll() as u16;
            self.tile_latch_low = self.read_data(address);
        } else if c == 7 {
            let address = self.background_pattern_table_address() + (self.nametable_latch as u16
                * TILE_SIZE) + self.v.fine_y_scroll() as u16 + TILE_PLANE_SIZE;
            self.tile_latch_high = self.read_data(address);
        } else if c == 0 {
            if self.rendering_enabled() {
                self.v.increment_coarse_x_scroll();
            }
        }
    }

    /// Whether the current scanline is visible.
    fn on_visible_scanline(&self) -> (r: bool)
        ensures
            r == (self.scanline < 240),
    {
        self.scanline < 240
    }

    /// Whether the current scanline is the pre-render scanline.
    fn on_prerender_scanline(&self) -> (r: bool)
        ensures
            r == (self.scanline == PRERENDER_SCANLINE),
    {
        self.scanline == PRERENDER_SCANLINE
    }

    /// Whether the current dot is a pixel of the picture.
    fn on_screen(&self) -> (r: bool)
        ensures
            r == (self.scanline < 240 && self.cycle < 256),
    {
        self.scanline < 240 && self.cycle < 256
    }

    /// Whether the current dot starts vertical blanking.
    fn start_of_vblank(&self) -> (r: bool)
        ensures
            r == self.on_vblank_start(),
    {
        self.scanline == VBLANK_SCANLINE && self.cycle == 1
    }

    /// Whether the background or sprites are shown.
    fn rendering_enabled(&self) -> (r: bool)
        ensures
            r == self.rendering(),
    {
        self.mask.show_background() || self.mask.show_sprites()
    }

    /// The pixel value and palette that the shifters hold for this dot.
    fn fetch_pixel(&self) -> (r: (u8, u8))
        requires
            self.fine_x_scroll < 8,
        ensures
            r == self.pixel(),
    {
        let pixel_offset: u16 = 0x8000u16 >> self.fine_x_scroll;
        let pixel_low = (self.tile_shifter_low & pixel_offset) != 0;
        let pixel_high = (self.tile_shifter_high & pixel_offset) != 0;
        let pixel: u8 = (if pixel_high { 2 } else { 0 }) + (if pixel_low { 1 } else { 0 });

        let palette_offset: u8 = 0x80u8 >> self.fine_x_scroll;
        let palette_low = (self.attribute_shifter_low & palette_offset) != 0;
        let palette_high = (self.attribute_shifter_high & palette_offset) != 0;
        let palette: u8 = (if palette_high { 2 } else { 0 }) + (if palette_low { 1 } else { 0 });

        (pixel, palette)
    }

    /// Loads the fetched pattern planes into the low bytes of the tile
    /// shifters and latches the fetched palette bits.
    fn reload_background_shifters(&mut self)
        ensures
            *final(self) == (Ppu {
                tile_shifter_low: (old(self).tile_shifter_low & 0xff00) | (
                old(self).tile_latch_low as u16),
                tile_shifter_high: (old(self).tile_shifter_high & 0xff00) | (
                old(self).tile_latch_high as u16),
                attribute_latch: old(self).attribute_bits,
                ..*old(self)
            }),
    {
        self.tile_shifter_low = (self.tile_shifter_low & 0xff00) | self.tile_latch_low as u16;
        self.tile_shifter_high = (self.tile_shifter_high & 0xff00) | self.tile_latch_high as u16;
        self.attribute_latch = self.attribute_bits;
    }

    /// Shifts the background shifters by one pixel, feeding the latched
    /// palette bits into the attribute shifters.
    fn shift_background_shifters(&mut self)
        ensures
            *final(self) == (Ppu {
                tile_shifter_low: old(self).tile_shifter_low << 1u16,
                tile_shifter_high: old(self).tile_shifter_high << 1u16,
                attribute_shifter_low: (old(self).attribute_shifter_low << 1u8) | (
                old(self).attribute_latch & 1),
                attribute_shifter_high: (old(self).attribute_shifter_high << 1u8) | ((
                old(self).attribute_latch & 0x2) >> 1u8),
                ..*old(self)
            }),
    {
        self.tile_shifter_low = self.tile_shifter_low << 1u16;
        self.tile_shifter_high = self.tile_shifter_high << 1u16;
        self.attribute_shifter_low = (self.attribute_shifter_low << 1u8) | (self.attribute_latch
            & 1);
        self.attribute_shifter_high = (self.attribute_shifter_high << 1u8) | ((self.attribute_latch
            & 0x2) >> 1u8);
    }

    /// Advances the PPU by one dot.
    #[verifier::rlimit(80)]
    #[verifier::spinoff_prover]
    pub fn tick(&mut self)
        requires
            old(self).can_tick(),
        ensures
            old(self).ticks_to(*final(self)),
    {
        let ghost o = *self;
        if self.on_prerender_scanline() {
            if self.cycle == 1 {
                self.status.set_sprite_overflow(false);
                self.status.set_sprite_0_hit(false);
                self.status.set_vblank(false);
                self.nmi = false;
            }
            // The vertical scroll bits are reloaded during pixels 280 to 304,
            // if rendering is enabled.
            if self.cycle >= 280 && self.cycle <= 304 && self.rendering_enabled() {
                let t = self.t;
                self.v.load_y_scroll(&t);
            }
        }
        if self.on_visible_scanline() || self.on_prerender_scanline() {
            if (self.cycle >= 1 && self.cycle <= 256) || (self.cycle >= 321 && self.cycle <= 337) {
                self.shift_background_shifters();
                self.fetch_tile_data();
            }
            if self.cycle == 256 && self.rendering_enabled() {
                self.v.increment_y_scroll();
            }
            if self.cycle == 257 && self.rendering_enabled() {
                let t = self.t;
                self.v.load_x_scroll(&t);
            }
            if self.cycle == 339 {
                self.nametable_latch = self.fetch_nametable_byte();
            }
        }
        assert(self.v.0 == o.next_v());
        if self.start_of_vblank() {
            self.status.set_vblank(true);
            self.nmi = self.control.nmi();
        }
        if self.rendering_enabled() && self.on_screen() {
            let pixel = self.fetch_pixel();
            let index = self.scanline as usize * WIDTH + self.cycle as usize;
            self.scratch_frame.set(index, pixel);
        }
        self.cycle = (self.cycle + 1) % DOTS;
        if self.cycle == 0 {
            self.scanline = (self.scanline + 1) % SCANLINES;
            if self.on_prerender_scanline() {
                self.is_frame_ready = true;
                copy_frame(&mut self.frame, &self.scratch_frame);
            }
        }
    }

    /// The nametable address that `address` (0x2000-0x2FFF) is mirrored to.
    fn mirror_nametable_address(&self, address: u16) -> (r: u16)
        requires
            0x2000 <= address <= 0x2fff,
        ensures
            r == nametable_mirror(self.cartridge.mirroring, address),
            0x2000 <= r < 0x2000 + 2 * NAMETABLE_SIZE,
    {
        match self.cartridge._mirroring() {
            // The second and fourth nametables map to the first and second
            // nametables, respectively.
            Mirroring::Horizontal => {
                if 0x2400 <= address && address <= 0x27ff {
                    address - 0x0400
                } else if 0x2800 <= address && address <= 0x2bff {
                    // The third and fourth logical nametables map to the
                    // second physical nametable.
                    address - 0x0400
                } else if 0x2c00 <= address && address <= 0x2fff {
                    address - 0x0800
                } else {
                    address
                }
            },
            // The third and fourth nametables map to the first and second
            // nametables, respectively.
            Mirroring::Vertical => {
                if 0x2800 <= address && address <= 0x2fff {
                    address - 0x0800
                } else {
                    address
                }
            },
        }
    }

    /// The palette address that `address` is mirrored to.
    fn mirror_palette_address(&self, address: u16) -> (r: u16)
        ensures
            r == palette_mirror(address),
            palette_mirror(r) == r,
            0x3f00 <= address <= 0x3fff ==> {
                &&& 0x3f00 <= r <= 0x3f1f
                &&& r != 0x3f10 && r != 0x3f14 && r != 0x3f18 && r != 0x3f1c
                &&& r == if address & 0x13 == 0x10 {
                    0x3f00 | (address & 0x0f)
                } else {
                    0x3f00 | (address & 0x1f)
                }
            },
    {
        proof {
            lemma_palette_mirror_idempotent(address);
        }
        // 0x3f20 - 0x3fff is a mirror of 0x3f00 - 0x3f1f.
        let address = address & 0x3f1f;
        if address == 0x3f10 || address == 0x3f14 || address == 0x3f18 || address == 0x3f1c {
            address - 0x10
        } else {
            address
        }
    }
}

} // verus!
