//! The picture processing unit of the emulator, drawing into an RGBA frame
//! buffer.
//!
//! It reads pattern tables and the nametable mirroring from the cartridge
//! board ([`Nrom`]) that is passed in, drives the processor's NMI line that
//! is passed in, and answers the CPU through one function per register, each
//! of which also leaves the written or read byte on the PPU's I/O bus. Each
//! visible pixel is looked up in palette memory and then in the system
//! palette, and stored as four bytes (red, green, blue, alpha).
use vstd::prelude::*;

use crate::cartridge::Mirroring;
use crate::cpu::status::{flag, set_flag};
use crate::mapper::Nrom;
use crate::ppu::address::{
    coarse_x_of, coarse_y_of, fine_y_of, lemma_with_nametable, loaded_x, loaded_y, nametable_of,
    next_coarse_x, next_y, top_of, with_coarse_x, with_coarse_y, with_fine_y, with_nametable,
    Address,
};
use crate::ppu::control::{Control, BACKGROUND_PATTERN_TABLE, INCREMENT_MODE, NMI_ENABLE};
use crate::ppu::mask::{Mask, SHOW_BACKGROUND, SHOW_SPRITES};
use crate::ppu::status::{Status, SPRITE_0_HIT, SPRITE_OVERFLOW, VBLANK};
use crate::ppu::{
    lemma_attribute_address, lemma_palette_mirror, lemma_palette_mirror_idempotent, lemma_tile_address, nametable_mirror,
    palette_index, palette_mirror, top_bit16, top_bit8, two_bits, BASE_NAMETABLE_ADDRESS,
    BASE_PALETTE_ADDRESS, DOTS, NAMETABLE_SIZE, PALETTES_SIZE, PRERENDER_SCANLINE, SCANLINES,
    TILE_PLANE_SIZE, TILE_SIZE, VBLANK_SCANLINE,
};

verus! {

/// The size of OAM in bytes.
pub const OAM_SIZE: usize = 256;
/// The width of the screen in pixels.
pub const WIDTH: u32 = 256;
/// The height of the screen in pixels.
pub const HEIGHT: u32 = 240;
/// The size of the frame buffer in bytes.
pub const FRAMEBUFFER_SIZE: usize = 245760;

/// The little-endian RGBA color with alpha 0xFF for the red, green and blue
/// bytes.
pub open spec fn rgba(r: u8, g: u8, b: u8) -> u32 {
    (r + g * 0x100 + b * 0x10000 + 0xff * 0x1000000) as u32
}

/// The system palette that `data` describes: one color for each three bytes
/// (red, green, blue); bytes left over at the end are ignored.
pub open spec fn system_palette(data: Seq<u8>) -> Seq<u32> {
    Seq::new(
        (data.len() / 3) as nat,
        |i: int| rgba(data[3 * i], data[3 * i + 1], data[3 * i + 2]),
    )
}

/// The four bytes of `c`, lowest first.
pub open spec fn le_bytes(c: u32) -> Seq<u8> {
    seq![
        (c % 0x100) as u8,
        (c / 0x100 % 0x100) as u8,
        (c / 0x10000 % 0x100) as u8,
        (c / 0x1000000) as u8,
    ]
}

/// The picture processing unit.
pub struct Ppu {
    /// The two physical nametables.
    pub nametables: Vec<u8>,
    /// The palette memory.
    pub palettes: Vec<u8>,
    /// The byte that the next PPUDATA read returns.
    pub read_buffer: u8,
    /// Object attribute memory.
    pub primary_oam: Vec<u8>,
    /// The I/O bus: the last byte written to or read from a register.
    pub io_bus: u8,
    /// Whether the PPU is in vertical blanking.
    pub vblank: bool,
    /// The control register.
    pub ctrl: Control,
    /// The mask register.
    pub mask: Mask,
    /// The status register.
    pub status: Status,
    /// The VRAM address.
    pub v: Address,
    /// The temporary VRAM address.
    pub t: Address,
    /// The fine X scroll.
    pub fine_x_scroll: u8,
    /// The write toggle shared by PPUSCROLL and PPUADDR.
    pub w: bool,
    /// The dot within the scanline.
    pub cycle: u16,
    /// The scanline.
    pub scanline: u16,
    /// The NMI output.
    pub nmi: bool,
    /// The nametable byte of the next tile.
    pub nametable_latch: u8,
    /// The palette bits of the next tile.
    pub attribute_bits: u8,
    /// The palette bits of the tile being loaded into the shifters.
    pub attribute_latch: u8,
    /// The low pattern plane of the next tile.
    pub tile_latch_low: u8,
    /// The high pattern plane of the next tile.
    pub tile_latch_high: u8,
    /// The low pattern plane shifter.
    pub tile_shifter_low: u16,
    /// The high pattern plane shifter.
    pub tile_shifter_high: u16,
    /// The low palette bit shifter.
    pub attribute_shifter_low: u8,
    /// The high palette bit shifter.
    pub attribute_shifter_high: u8,
    /// The OAM address.
    pub oam_addr: u8,
    /// The system palette: an RGBA color for each palette memory value.
    pub palette: Vec<u32>,
    /// The frame buffer, four bytes per pixel.
    pub buffer: Vec<u8>,
    /// Whether a frame has been completed since the flag was last cleared:
    /// the frame buffer is then ready to be shown.
    pub frame_ready: bool,
}

impl Ppu {
    /// The vectors have their sizes, the position is inside the frame and
    /// the fine X scroll is a pixel of a tile.
    pub open spec fn wf(&self) -> bool {
        &&& self.nametables@.len() == 2 * NAMETABLE_SIZE
        &&& self.palettes@.len() == PALETTES_SIZE
        &&& self.primary_oam@.len() == OAM_SIZE
        &&& self.buffer@.len() == FRAMEBUFFER_SIZE
        &&& self.cycle < DOTS
        &&& self.scanline < SCANLINES
        &&& self.fine_x_scroll < 8
    }

    /// A PPU read of `address` does not panic.
    pub open spec fn can_read(&self, mapper: &Nrom, address: u16) -> bool {
        &&& address <= 0x3fff
        &&& address < 0x2000 ==> address < mapper.chr_rom@.len()
        &&& !(0x3000 <= address <= 0x3eff)
    }

    /// A PPU write of `address` does not panic.
    pub open spec fn can_write(address: u16) -> bool {
        ||| 0x2000 <= address <= 0x2fff
        ||| 0x3f00 <= address <= 0x3fff
    }

    /// The byte that a PPU read of `address` returns.
    pub open spec fn peek(&self, mapper: &Nrom, address: u16) -> u8 {
        if address < 0x2000 {
            mapper.chr_rom@[address as int]
        } else if address < 0x3f00 {
            self.nametables@[nametable_mirror(mapper.mirroring, address) - BASE_NAMETABLE_ADDRESS]
        } else {
            self.palettes@[palette_index(address)]
        }
    }

    /// Whether the background or sprites are shown.
    pub open spec fn rendering(&self) -> bool {
        flag(self.mask.0, SHOW_BACKGROUND) || flag(self.mask.0, SHOW_SPRITES)
    }

    /// The amount by which a PPUDATA access advances the VRAM address.
    pub open spec fn data_step(&self) -> int {
        if flag(self.ctrl.0, INCREMENT_MODE) {
            32
        } else {
            1
        }
    }

    /// The address of the low plane of the pattern row of the next tile.
    pub open spec fn pattern_address(&self) -> u16 {
        ((if flag(self.ctrl.0, BACKGROUND_PATTERN_TABLE) { 0x1000int } else { 0int })
            + self.nametable_latch * TILE_SIZE + fine_y_of(self.v.0)) as u16
    }

    /// The pixel value and palette that the shifters hold for the current
    /// dot.
    pub open spec fn pixel(&self) -> (u8, u8) {
        (
            two_bits(
                top_bit16(self.tile_shifter_high, self.fine_x_scroll),
                top_bit16(self.tile_shifter_low, self.fine_x_scroll),
            ),
            two_bits(
                top_bit8(self.attribute_shifter_high, self.fine_x_scroll),
                top_bit8(self.attribute_shifter_low, self.fine_x_scroll),
            ),
        )
    }

    /// The dot is on a visible scanline or on the pre-render scanline.
    pub open spec fn on_render_line(&self) -> bool {
        self.scanline < 240 || self.scanline == PRERENDER_SCANLINE
    }

    /// The dot shifts the background shifters and takes part in a tile
    /// fetch.
    pub open spec fn on_fetch_dot(&self) -> bool {
        &&& self.on_render_line()
        &&& (1 <= self.cycle <= 256 || 321 <= self.cycle <= 337)
    }

    /// The dot draws a visible pixel.
    pub open spec fn draws(&self) -> bool {
        self.rendering() && self.scanline < 240 && self.cycle < 256
    }

    /// The PPU after this dot's shifts and reload, before the pixel is drawn.
    pub open spec fn shifted(&self) -> Ppu {
        if self.on_fetch_dot() {
            let s = Ppu {
                tile_shifter_low: self.tile_shifter_low << 1u16,
                tile_shifter_high: self.tile_shifter_high << 1u16,
                attribute_shifter_low: (self.attribute_shifter_low << 1u8) | (
                self.attribute_latch & 1),
                attribute_shifter_high: (self.attribute_shifter_high << 1u8) | ((
                self.attribute_latch & 2) >> 1u8),
                ..*self
            };
            if self.cycle % 8 == 1 {
                Ppu {
                    tile_shifter_low: (s.tile_shifter_low & 0xff00) | (s.tile_latch_low as u16),
                    tile_shifter_high: (s.tile_shifter_high & 0xff00) | (s.tile_latch_high as u16),
                    ..s
                }
            } else {
                s
            }
        } else {
            *self
        }
    }

    /// The palette memory address of the pixel that this dot draws.
    pub open spec fn color_address(&self) -> u16 {
        let (pixel, palette) = self.shifted().pixel();
        (BASE_PALETTE_ADDRESS + palette * 4 + pixel) as u16
    }

    /// A tick does not panic: the pattern fetches fall inside the CHR ROM,
    /// and the palette memory value of a drawn pixel names a color of the
    /// system palette.
    pub open spec fn can_tick(&self, mapper: &Nrom) -> bool {
        &&& self.wf()
        &&& self.on_fetch_dot() && self.cycle % 8 == 5 ==> (self.pattern_address() as int)
            < mapper.chr_rom@.len()
        &&& self.on_fetch_dot() && self.cycle % 8 == 7 ==> self.pattern_address()
            + TILE_PLANE_SIZE < mapper.chr_rom@.len()
        &&& self.draws() ==> (self.peek(mapper, self.color_address()) as int)
            < self.palette@.len()
    }

    /// `f` is the PPU one dot after `self`, and `nmi` the NMI line.
    pub open spec fn ticks_to(&self, mapper: &Nrom, f: Ppu, old_nmi: bool, nmi: bool) -> bool {
        let c = self.cycle;
        let fetch = self.on_fetch_dot();
        let g = self.shifted();
        &&& f.wf()
        &&& f.cycle == (c + 1) % (DOTS as int)
        &&& f.scanline == if c == DOTS - 1 {
            (self.scanline + 1) % (SCANLINES as int)
        } else {
            self.scanline as int
        }
        &&& f.v.0 == if !self.rendering() {
            self.v.0
        } else if self.scanline == PRERENDER_SCANLINE && 280 <= c <= 304 {
            loaded_y(self.v.0, self.t.0)
        } else if self.on_render_line() && c == 256 {
            next_y(next_coarse_x(self.v.0))
        } else if fetch && c % 8 == 0 {
            next_coarse_x(self.v.0)
        } else if self.on_render_line() && c == 257 {
            loaded_x(self.v.0, self.t.0)
        } else {
            self.v.0
        }
        &&& f.status.0 == if self.scanline == PRERENDER_SCANLINE && c == 1 {
            set_flag(
                set_flag(set_flag(self.status.0, SPRITE_OVERFLOW, false), SPRITE_0_HIT, false),
                VBLANK,
                false,
            )
        } else if self.scanline == VBLANK_SCANLINE && c == 1 {
            set_flag(self.status.0, VBLANK, true)
        } else {
            self.status.0
        }
        &&& nmi == if self.scanline == PRERENDER_SCANLINE && c == 1 {
            false
        } else if self.scanline == VBLANK_SCANLINE && c == 1 {
            flag(self.ctrl.0, NMI_ENABLE)
        } else {
            old_nmi
        }
        &&& f.nametable_latch == if (fetch && c % 8 == 1) || (self.on_render_line() && c == 339) {
            self.peek(mapper, crate::ppu::Ppu::tile_address(self.v.0))
        } else {
            self.nametable_latch
        }
        &&& f.attribute_bits == if fetch && c % 8 == 3 {
            crate::ppu::Ppu::attribute_quarter(
                self.peek(mapper, crate::ppu::Ppu::attribute_address(self.v.0)),
                self.v.0,
            )
        } else {
            self.attribute_bits
        }
        &&& f.attribute_latch == if fetch && c % 8 == 1 {
            self.attribute_bits
        } else {
            self.attribute_latch
        }
        &&& f.tile_latch_low == if fetch && c % 8 == 5 {
            self.peek(mapper, self.pattern_address())
        } else {
            self.tile_latch_low
        }
        &&& f.tile_latch_high == if fetch && c % 8 == 7 {
            self.peek(mapper, (self.pattern_address() + TILE_PLANE_SIZE) as u16)
        } else {
            self.tile_latch_high
        }
        &&& f.tile_shifter_low == g.tile_shifter_low
        &&& f.tile_shifter_high == g.tile_shifter_high
        &&& f.attribute_shifter_low == g.attribute_shifter_low
        &&& f.attribute_shifter_high == g.attribute_shifter_high
        &&& f.buffer@ == if self.draws() {
            let i = (self.scanline * 256 + c) * 4;
            let bytes = le_bytes(self.palette@[self.peek(mapper, self.color_address()) as int]);
            self.buffer@.update(i, bytes[0]).update(i + 1, bytes[1]).update(i + 2, bytes[2]).update(
                i + 3,
                bytes[3],
            )
        } else {
            self.buffer@
        }
        &&& f.frame_ready == (self.frame_ready || (self.scanline == PRERENDER_SCANLINE - 1 && c
            == DOTS - 1))
        &&& f.nametables == self.nametables
        &&& f.palettes == self.palettes
        &&& f.read_buffer == self.read_buffer
        &&& f.primary_oam == self.primary_oam
        &&& f.io_bus == self.io_bus
        &&& f.vblank == self.vblank
        &&& f.ctrl == self.ctrl
        &&& f.mask == self.mask
        &&& f.t == self.t
        &&& f.fine_x_scroll == self.fine_x_scroll
        &&& f.w == self.w
        &&& f.nmi == self.nmi
        &&& f.oam_addr == self.oam_addr
        &&& f.palette == self.palette
    }

    /// Creates a PPU with the system palette that `palette_data` describes,
    /// at the first dot of the first scanline, with cleared memory and
    /// registers.
    pub fn new(palette_data: &[u8]) -> (ppu: Ppu)
        ensures
            ppu.wf(),
            ppu.palette@ == system_palette(palette_data@),
            ppu.nametables@ == Seq::new(2 * NAMETABLE_SIZE as nat, |i: int| 0u8),
            ppu.palettes@ == Seq::new(PALETTES_SIZE as nat, |i: int| 0u8),
            ppu.primary_oam@ == Seq::new(OAM_SIZE as nat, |i: int| 0u8),
            ppu.buffer@ == Seq::new(FRAMEBUFFER_SIZE as nat, |i: int| 0u8),
            ppu.read_buffer == 0,
            ppu.io_bus == 0,
            !ppu.vblank,
            ppu.ctrl.0 == 0,
            ppu.mask.0 == 0,
            ppu.status.0 == 0,
            ppu.v.0 == 0,
            ppu.t.0 == 0,
            ppu.fine_x_scroll == 0,
            !ppu.w,
            ppu.cycle == 0,
            ppu.scanline == 0,
            !ppu.nmi,
            ppu.nametable_latch == 0,
            ppu.attribute_bits == 0,
            ppu.attribute_latch == 0,
            ppu.tile_latch_low == 0,
            ppu.tile_latch_high == 0,
            ppu.tile_shifter_low == 0,
            ppu.tile_shifter_high == 0,
            ppu.attribute_shifter_low == 0,
            ppu.attribute_shifter_high == 0,
            ppu.oam_addr == 0,
            !ppu.frame_ready,
    {
        let mut palette: Vec<u32> = Vec::new();
        let len = palette_data.len();
        let n = len / 3;
        let mut i: usize = 0;
        while i < n
            invariant
                len == palette_data@.len(),
                n == len / 3,
                i <= n,
                palette@ == system_palette(palette_data@).subrange(0, i as int),
            decreases n - i,
        {
            assert(3 * i + 2 < len) by (nonlinear_arith)
                requires
                    i < n,
                    n == len / 3,
            ;
            let r = palette_data[3 * i];
            let g = palette_data[3 * i + 1];
            let b = palette_data[3 * i + 2];
            palette.push(r as u32 + g as u32 * 0x100 + b as u32 * 0x10000 + 0xff * 0x1000000);
            i = i + 1;
            assert(palette@ =~= system_palette(palette_data@).subrange(0, i as int));
        }
        assert(palette@ =~= system_palette(palette_data@));

        let nametables: Vec<u8> = vec![0; 2 * NAMETABLE_SIZE];
        let palettes: Vec<u8> = vec![0; PALETTES_SIZE];
        let primary_oam: Vec<u8> = vec![0; OAM_SIZE];
        let buffer: Vec<u8> = vec![0; FRAMEBUFFER_SIZE];
        assert(nametables@ =~= Seq::new(2 * NAMETABLE_SIZE as nat, |i: int| 0u8));
        assert(palettes@ =~= Seq::new(PALETTES_SIZE as nat, |i: int| 0u8));
        assert(primary_oam@ =~= Seq::new(OAM_SIZE as nat, |i: int| 0u8));
        assert(buffer@ =~= Seq::new(FRAMEBUFFER_SIZE as nat, |i: int| 0u8));
        Ppu {
            nametables,
            palettes,
            read_buffer: 0,
            primary_oam,
            io_bus: 0,
            vblank: false,
            ctrl: Control(0),
            mask: Mask(0),
            status: Status(0),
            v: Address(0),
            t: Address(0),
            fine_x_scroll: 0,
            w: false,
            cycle: 0,
            scanline: 0,
            nmi: false,
            nametable_latch: 0,
            attribute_bits: 0,
            attribute_latch: 0,
            tile_latch_low: 0,
            tile_latch_high: 0,
            tile_shifter_low: 0,
            tile_shifter_high: 0,
            attribute_shifter_low: 0,
            attribute_shifter_high: 0,
            oam_addr: 0,
            palette,
            buffer,
            frame_ready: false,
        }
    }

    /// Whether a tick is defined.
    pub fn tick_safe(&self, mapper: &Nrom) -> (r: bool)
        ensures
            r == self.can_tick(mapper),
    {
        if !(self.nametables.len() == 2 * NAMETABLE_SIZE && self.palettes.len() == PALETTES_SIZE
            && self.primary_oam.len() == OAM_SIZE && self.buffer.len() == FRAMEBUFFER_SIZE
            && self.cycle < DOTS && self.scanline < SCANLINES && self.fine_x_scroll < 8) {
            return false;
        }
        let render_line = self.scanline < 240 || self.scanline == PRERENDER_SCANLINE;
        let fetch = render_line && ((1 <= self.cycle && self.cycle <= 256) || (321 <= self.cycle
            && self.cycle <= 337));
        let pattern = self.background_pattern_table_address() + (self.nametable_latch as u16
            * TILE_SIZE) + self.v.fine_y_scroll() as u16;
        let chr = mapper.chr_rom.len();
        if fetch && self.cycle % 8 == 5 && (pattern as usize) >= chr {
            return false;
        }
        if fetch && self.cycle % 8 == 7 && ((pattern + TILE_PLANE_SIZE) as usize) >= chr {
            return false;
        }
        if self.rendering_enabled() && self.scanline < 240 && self.cycle < 256 {
            // The shifters as this dot's shift and reload leave them.
            let mut tile_low = self.tile_shifter_low;
            let mut tile_high = self.tile_shifter_high;
            let mut attribute_low = self.attribute_shifter_low;
            let mut attribute_high = self.attribute_shifter_high;
            if fetch {
                tile_low = tile_low << 1u16;
                tile_high = tile_high << 1u16;
                attribute_low = (attribute_low << 1u8) | (self.attribute_latch & 1);
                attribute_high = (attribute_high << 1u8) | ((self.attribute_latch & 2) >> 1u8);
                if self.cycle % 8 == 1 {
                    tile_low = (tile_low & 0xff00) | (self.tile_latch_low as u16);
                    tile_high = (tile_high & 0xff00) | (self.tile_latch_high as u16);
                }
            }
            let pixel_offset: u16 = 0x8000u16 >> self.fine_x_scroll;
            let palette_offset: u8 = 0x80u8 >> self.fine_x_scroll;
            let pixel: u8 = (if tile_high & pixel_offset != 0 { 2 } else { 0 }) + (if tile_low
                & pixel_offset != 0 { 1 } else { 0 });
            let palette: u8 = (if attribute_high & palette_offset != 0 { 2 } else { 0 }) + (
            if attribute_low & palette_offset != 0 { 1 } else { 0 });
            let index = self.read_data(mapper, 0x3f00 + (palette * 4) as u16 + pixel as u16);
            (index as usize) < self.palette.len()
        } else {
            true
        }
    }

    /// Reads the byte at PPU address `address`.
    pub fn read_data(&self, mapper: &Nrom, address: u16) -> (data: u8)
        requires
            self.wf(),
            self.can_read(mapper, address),
        ensures
            data == self.peek(mapper, address),
    {
        if address <= 0x1fff {
            mapper.read_chr(address)
        } else if address <= 0x3eff {
            let mirrored_address = Ppu::mirror_nametable_address(mapper, address);
            self.nametables[(mirrored_address - BASE_NAMETABLE_ADDRESS) as usize]
        } else {
            proof {
                lemma_palette_mirror(address);
            }
            let mirrored_address = Ppu::mirror_palette_address(address);
            self.palettes[(mirrored_address - BASE_PALETTE_ADDRESS) as usize]
        }
    }

    /// Writes `data` to PPU address `address`.
    fn write_data(&mut self, mapper: &Nrom, address: u16, data: u8)
        requires
            old(self).wf(),
            Ppu::can_write(address),
        ensures
            final(self).wf(),
            address < 0x3f00 ==> final(self).nametables@ == old(self).nametables@.update(
                nametable_mirror(mapper.mirroring, address) - BASE_NAMETABLE_ADDRESS,
                data,
            ) && final(self).palettes == old(self).palettes,
            address >= 0x3f00 ==> final(self).palettes@ == old(self).palettes@.update(
                palette_index(address),
                data,
            ) && final(self).nametables == old(self).nametables,
            *final(self) == (Ppu {
                nametables: final(self).nametables,
                palettes: final(self).palettes,
                ..*old(self)
            }),
    {
        if address <= 0x3eff {
            let mirrored_address = Ppu::mirror_nametable_address(mapper, address);
            self.nametables.set((mirrored_address - BASE_NAMETABLE_ADDRESS) as usize, data);
        } else {
            proof {
                lemma_palette_mirror(address);
            }
            let mirrored_address = Ppu::mirror_palette_address(address);
            self.palettes.set((mirrored_address - BASE_PALETTE_ADDRESS) as usize, data);
        }
    }

    /// Reads the nametable byte of the tile at `v`.
    fn fetch_nametable_byte(&self, mapper: &Nrom) -> (r: u8)
        requires
            self.wf(),
        ensures
            r == self.peek(mapper, crate::ppu::Ppu::tile_address(self.v.0)),
    {
        proof {
            lemma_tile_address(self.v.0);
        }
        // The bottom 12 bits of v are the address of the next tile in
        // nametable memory.
        self.read_data(mapper, BASE_NAMETABLE_ADDRESS | (self.v.0 & 0x0fff))
    }

    /// Reads the palette bits of the tile at `v` from its attribute byte.
    fn fetch_attribute_bits(&self, mapper: &Nrom) -> (r: u8)
        requires
            self.wf(),
        ensures
            r == crate::ppu::Ppu::attribute_quarter(
                self.peek(mapper, crate::ppu::Ppu::attribute_address(self.v.0)),
                self.v.0,
            ),
    {
        let n = self.v.nametable();
        let y = self.v.coarse_y_scroll();
        let x = self.v.coarse_x_scroll();
        proof {
            lemma_attribute_address(n as u16, y as u16, x as u16);
        }
        // Each attribute byte applies to a 4x4 group of tiles.
        let attribute_address = 0x23c0u16 | ((n as u16) << 10u16) | (((y as u16) / 4) << 3u16) | ((
        x as u16) / 4);
        let mut attribute_byte = self.read_data(mapper, attribute_address);
        // The bottom row of a 2x2 group is covered by the four leftmost
        // bits, and the right column by the two leftmost bits of each half.
        attribute_byte = attribute_byte >> (if y & 0x02 != 0 { 4u8 } else { 0u8 });
        attribute_byte = attribute_byte >> (if x & 0x02 != 0 { 2u8 } else { 0u8 });
        attribute_byte & 0x03
    }

    /// The base of the background pattern table.
    fn background_pattern_table_address(&self) -> (r: u16)
        ensures
            r == (if flag(self.ctrl.0, BACKGROUND_PATTERN_TABLE) { 0x1000u16 } else { 0u16 }),
    {
        if self.ctrl.background_pattern_table() {
            0x1000
        } else {
            0x0000
        }
    }

    /// Performs the part of a tile fetch that falls on this dot.
    fn fetch_tile_data(&mut self, mapper: &Nrom)
        requires
            old(self).wf(),
            old(self).cycle % 8 == 5 ==> (old(self).pattern_address() as int)
                < mapper.chr_rom@.len(),
            old(self).cycle % 8 == 7 ==> old(self).pattern_address() + TILE_PLANE_SIZE
                < mapper.chr_rom@.len(),
        ensures
            final(self).wf(),
            ({
                let o = *old(self);
                let c = o.cycle % 8;
                *final(self) == (Ppu {
                    tile_shifter_low: if c == 1 {
                        (o.tile_shifter_low & 0xff00) | (o.tile_latch_low as u16)
                    } else {
                        o.tile_shifter_low
                    },
                    tile_shifter_high: if c == 1 {
                        (o.tile_shifter_high & 0xff00) | (o.tile_latch_high as u16)
                    } else {
                        o.tile_shifter_high
                    },
                    attribute_latch: if c == 1 {
                        o.attribute_bits
                    } else {
                        o.attribute_latch
                    },
                    nametable_latch: if c == 1 {
                        o.peek(mapper, crate::ppu::Ppu::tile_address(o.v.0))
                    } else {
                        o.nametable_latch
                    },
                    attribute_bits: if c == 3 {
                        crate::ppu::Ppu::attribute_quarter(
                            o.peek(mapper, crate::ppu::Ppu::attribute_address(o.v.0)),
                            o.v.0,
                        )
                    } else {
                        o.attribute_bits
                    },
                    tile_latch_low: if c == 5 {
                        o.peek(mapper, o.pattern_address())
                    } else {
                        o.tile_latch_low
                    },
                    tile_latch_high: if c == 7 {
                        o.peek(mapper, (o.pattern_address() + TILE_PLANE_SIZE) as u16)
                    } else {
                        o.tile_latch_high
                    },
                    v: if c == 0 && o.rendering() {
                        Address(next_coarse_x(o.v.0))
                    } else {
                        o.v
                    },
                    ..o
                })
            }),
    {
        let c = self.cycle % 8;
        if c == 1 {
            self.reload_background_shifters();
            self.nametable_latch = self.fetch_nametable_byte(mapper);
        } else if c == 3 {
            self.attribute_bits = self.fetch_attribute_bits(mapper);
        } else if c == 5 {
            let address = self.background_pattern_table_address() + (self.nametable_latch as u16
                * TILE_SIZE) + self.v.fine_y_scroll() as u16;
            self.tile_latch_low = self.read_data(mapper, address);
        } else if c == 7 {
            let address = self.background_pattern_table_address() + (self.nametable_latch as u16
                * TILE_SIZE) + self.v.fine_y_scroll() as u16 + TILE_PLANE_SIZE;
            self.tile_latch_high = self.read_data(mapper, address);
        } else if c == 0 {
            if self.rendering_enabled() {
                self.v.increment_coarse_x_scroll();
            }
        }
    }

    /// Whether the background or sprites are shown.
    fn rendering_enabled(&self) -> (r: bool)
        ensures
            r == self.rendering(),
    {
        self.mask.show_background() || self.mask.show_sprites()
    }

    /// The pixel value and palette that the shifters hold for this dot.
    fn fetch_pixel(&self) -> (r: (u8, u8))
        requires
            self.fine_x_scroll < 8,
        ensures
            r == self.pixel(),
    {
        let pixel_offset: u16 = 0x8000u16 >> self.fine_x_scroll;
        let pixel_low = (self.tile_shifter_low & pixel_offset) != 0;
        let pixel_high = (self.tile_shifter_high & pixel_offset) != 0;
        let pixel: u8 = (if pixel_high { 2 } else { 0 }) + (if pixel_low { 1 } else { 0 });
        let palette_offset: u8 = 0x80u8 >> self.fine_x_scroll;
        let palette_low = (self.attribute_shifter_low & palette_offset) != 0;
        let palette_high = (self.attribute_shifter_high & palette_offset) != 0;
        let palette: u8 = (if palette_high { 2 } else { 0 }) + (if palette_low { 1 } else { 0 });
        (pixel, palette)
    }

    /// Loads the fetched pattern planes into the low bytes of the tile
    /// shifters and latches the fetched palette bits.
    fn reload_background_shifters(&mut self)
        ensures
            *final(self) == (Ppu {
                tile_shifter_low: (old(self).tile_shifter_low & 0xff00) | (
                old(self).tile_latch_low as u16),
                tile_shifter_high: (old(self).tile_shifter_high & 0xff00) | (
                old(self).tile_latch_high as u16),
                attribute_latch: old(self).attribute_bits,
                ..*old(self)
            }),
    {
        self.tile_shifter_low = (self.tile_shifter_low & 0xff00) | self.tile_latch_low as u16;
        self.tile_shifter_high = (self.tile_shifter_high & 0xff00) | self.tile_latch_high as u16;
        self.attribute_latch = self.attribute_bits;
    }

    /// Shifts the background shifters by one pixel.
    fn shift_background_shifters(&mut self)
        ensures
            *final(self) == (Ppu {
                tile_shifter_low: old(self).tile_shifter_low << 1u16,
                tile_shifter_high: old(self).tile_shifter_high << 1u16,
                attribute_shifter_low: (old(self).attribute_shifter_low << 1u8) | (
                old(self).attribute_latch & 1),
                attribute_shifter_high: (old(self).attribute_shifter_high << 1u8) | ((
                old(self).attribute_latch & 0x2) >> 1u8),
                ..*old(self)
            }),
    {
        self.tile_shifter_low = self.tile_shifter_low << 1u16;
        self.tile_shifter_high = self.tile_shifter_high << 1u16;
        self.attribute_shifter_low = (self.attribute_shifter_low << 1u8) | (self.attribute_latch
            & 1);
        self.attribute_shifter_high = (self.attribute_shifter_high << 1u8) | ((self.attribute_latch
            & 0x2) >> 1u8);
    }

    /// Advances the PPU by one dot, driving the processor's NMI line `nmi`.
    /// When the pre-render scanline begins, the frame buffer is marked
    /// ready.
    #[verifier::rlimit(100)]
    #[verifier::spinoff_prover]
    pub fn tick(&mut self, mapper: &Nrom, nmi: &mut bool)
        requires
            old(self).can_tick(mapper),
        ensures
            old(self).ticks_to(mapper, *final(self), *old(nmi), *final(nmi)),
    {
        let ghost o = *self;
        if self.scanline == PRERENDER_SCANLINE {
            if self.cycle == 1 {
                self.status.set_sprite_overflow(false);
                self.status.set_sprite_0_hit(false);
                self.status.set_vblank(false);
                *nmi = false;
            }
            // The vertical scroll bits are reloaded during pixels 280 to 304,
            // if rendering is enabled.
            if self.cycle >= 280 && self.cycle <= 304 && self.rendering_enabled() {
                let t = self.t;
                self.v.load_y_scroll(&t);
            }
        }
        if self.scanline < 240 || self.scanline == PRERENDER_SCANLINE {
            if (self.cycle >= 1 && self.cycle <= 256) || (self.cycle >= 321 && self.cycle <= 337) {
                self.shift_background_shifters();
                self.fetch_tile_data(mapper);
            }
            if self.cycle == 256 && self.rendering_enabled() {
                self.v.increment_y_scroll();
            }
            if self.cycle == 257 && self.rendering_enabled() {
                let t = self.t;
                self.v.load_x_scroll(&t);
            }
            if self.cycle == 339 {
                self.nametable_latch = self.fetch_nametable_byte(mapper);
            }
        }
        if self.scanline == VBLANK_SCANLINE && self.cycle == 1 {
            self.status.set_vblank(true);
            *nmi = self.ctrl.nmi();
        }
        assert(self.tile_shifter_low == o.shifted().tile_shifter_low);
        assert(self.tile_shifter_high == o.shifted().tile_shifter_high);
        assert(self.attribute_shifter_low == o.shifted().attribute_shifter_low);
        assert(self.attribute_shifter_high == o.shifted().attribute_shifter_high);
        if self.rendering_enabled() && self.scanline < 240 && self.cycle < 256 {
            let (pixel_value, palette) = self.fetch_pixel();
            let palette_index = self.read_data(
                mapper,
                0x3f00 + (palette * 4) as u16 + pixel_value as u16,
            );
            let color = self.palette[palette_index as usize];
            let buffer_index = self.scanline as usize * 256 * 4 + (self.cycle as usize) * 4;
            self.buffer.set(buffer_index, (color % 0x100) as u8);
            self.buffer.set(buffer_index + 1, (color / 0x100 % 0x100) as u8);
            self.buffer.set(buffer_index + 2, (color / 0x10000 % 0x100) as u8);
            self.buffer.set(buffer_index + 3, (color / 0x1000000) as u8);
        }
        self.cycle = (self.cycle + 1) % DOTS;
        if self.cycle == 0 {
            self.scanline = (self.scanline + 1) % SCANLINES;
            if self.scanline == PRERENDER_SCANLINE {
                self.frame_ready = true;
            }
        }
    }

    /// Reads PPUDATA: returns the read buffer, refills it with the PPU byte
    /// at `address` and advances the VRAM address.
    pub fn read_register(&mut self, mapper: &Nrom, address: u16) -> (data: u8)
        requires
            old(self).wf(),
            address == 0x2007,
            old(self).v.0 + old(self).data_step() <= u16::MAX,
        ensures
            final(self).wf(),
            data == old(self).read_buffer,
            *final(self) == (Ppu {
                read_buffer: old(self).peek(mapper, address),
                v: Address((old(self).v.0 + old(self).data_step()) as u16),
                ..*old(self)
            }),
    {
        let data = if address < BASE_PALETTE_ADDRESS {
            self.read_buffer
        } else {
            self.read_data(mapper, address)
        };
        self.read_buffer = self.read_data(mapper, address);
        let mode = self.ctrl.increment_mode();
        self.v.increment(mode);
        data
    }

    /// Writes PPUDATA: stores `data` at the VRAM address and advances it.
    pub fn write_register(&mut self, mapper: &Nrom, address: u16, data: u8)
        requires
            old(self).wf(),
            address == 0x2007,
            Ppu::can_write(old(self).v.0),
            old(self).v.0 + old(self).data_step() <= u16::MAX,
        ensures
            final(self).wf(),
            old(self).v.0 < 0x3f00 ==> final(self).nametables@ == old(self).nametables@.update(
                nametable_mirror(mapper.mirroring, old(self).v.0) - BASE_NAMETABLE_ADDRESS,
                data,
            ) && final(self).palettes == old(self).palettes,
            old(self).v.0 >= 0x3f00 ==> final(self).palettes@ == old(self).palettes@.update(
                palette_index(old(self).v.0),
                data,
            ) && final(self).nametables == old(self).nametables,
            *final(self) == (Ppu {
                nametables: final(self).nametables,
                palettes: final(self).palettes,
                v: Address((old(self).v.0 + old(self).data_step()) as u16),
                ..*old(self)
            }),
    {
        self.write_data(mapper, self.v.0, data);
        let mode = self.ctrl.increment_mode();
        self.v.increment(mode);
    }

    /// Reads an open-bus register: the byte last left on the I/O bus.
    pub fn read_bus(&mut self, address: u16) -> (data: u8)
        ensures
            data == old(self).io_bus,
            *final(self) == *old(self),
    {
        self.io_bus
    }

    /// Writes a register that only holds the byte on the I/O bus.
    pub fn write_bus(&mut self, address: u16, data: u8)
        ensures
            *final(self) == (Ppu { io_bus: data, ..*old(self) }),
    {
        self.io_bus = data;
    }

    /// Writes PPUCTRL: takes the byte and selects its nametable in `t`.
    pub fn write_ctrl(&mut self, address: u16, data: u8)
        ensures
            old(self).wrote_ctrl(*final(self), data),
    {
        self.ctrl = Control(data);
        let n = self.ctrl.nametable();
        self.t.set_nametable(n);
        self.io_bus = data;
    }

    /// `f` is the PPU after a write of `data` to PPUCTRL: the byte becomes
    /// the control register and the open bus value, and its nametable bits go
    /// to the temporary address.
    pub open spec fn wrote_ctrl(&self, f: Ppu, data: u8) -> bool {
        f == (Ppu {
            ctrl: Control(data),
            t: Address(with_nametable(self.t.0, data % 4)),
            io_bus: data,
            ..*self
        })
    }

    /// Writes PPUMASK.
    pub fn write_mask(&mut self, address: u16, data: u8)
        ensures
            *final(self) == (Ppu { mask: Mask(data), io_bus: data, ..*old(self) }),
    {
        self.mask = Mask(data);
        self.io_bus = data;
    }

    /// Reads PPUSTATUS: the status flags over the low five bits of the I/O
    /// bus, which keeps the result; clears the vertical blank flag and the
    /// write toggle.
    pub fn read_status(&mut self, address: u16) -> (data: u8)
        ensures
            data == (old(self).io_bus & 0x1f) | old(self).status.0,
            *final(self) == (Ppu {
                io_bus: data,
                status: Status(set_flag(old(self).status.0, VBLANK, false)),
                w: false,
                ..*old(self)
            }),
    {
        self.io_bus = (self.io_bus & 0x1f) | self.status.0;
        self.status.set_vblank(false);
        self.w = false;
        self.io_bus
    }

    /// Writes OAMADDR.
    pub fn write_oam_addr(&mut self, address: u16, data: u8)
        ensures
            *final(self) == (Ppu { oam_addr: data, io_bus: data, ..*old(self) }),
    {
        self.oam_addr = data;
        self.io_bus = data;
    }

    /// Reads OAMDATA at the OAM address.
    pub fn read_oam_data(&mut self, address: u16) -> (data: u8)
        requires
            old(self).wf(),
        ensures
            data == old(self).primary_oam@[old(self).oam_addr as int],
            *final(self) == (Ppu { io_bus: data, ..*old(self) }),
    {
        self.io_bus = self.primary_oam[self.oam_addr as usize];
        self.io_bus
    }

    /// Writes OAMDATA at the OAM address and advances it.
    pub fn write_oam_data(&mut self, address: u16, data: u8)
        requires
            old(self).wf(),
        ensures
            final(self).wf(),
            final(self).primary_oam@ == old(self).primary_oam@.update(
                old(self).oam_addr as int,
                data,
            ),
            *final(self) == (Ppu {
                primary_oam: final(self).primary_oam,
                oam_addr: ((old(self).oam_addr + 1) % 256) as u8,
                ..*old(self)
            }),
    {
        self.primary_oam.set(self.oam_addr as usize, data);
        self.oam_addr = self.oam_addr.wrapping_add(1);
    }

    /// Writes PPUSCROLL: the X scroll, then the Y scroll, into `t` and the
    /// fine X scroll, flipping the write toggle.
    pub fn write_scroll(&mut self, address: u16, data: u8)
        ensures
            !old(self).w ==> *final(self) == (Ppu {
                t: Address(with_coarse_x(old(self).t.0, data / 8)),
                fine_x_scroll: data % 8,
                w: true,
                io_bus: data,
                ..*old(self)
            }),
            old(self).w ==> *final(self) == (Ppu {
                t: Address(with_fine_y(with_coarse_y(old(self).t.0, data / 8), data % 8)),
                w: false,
                io_bus: data,
                ..*old(self)
            }),
    {
        if !self.w {
            self.t.set_coarse_x_scroll(data / 8);
            self.fine_x_scroll = data % 8;
            self.w = true;
        } else {
            self.t.set_coarse_y_scroll(data / 8);
            self.t.set_fine_y_scroll(data % 8);
            self.w = false;
        }
        self.io_bus = data;
    }

    /// Writes PPUADDR: the high, then the low byte of `t`, copying `t` to
    /// `v` after the low byte; flips the write toggle.
    pub fn write_addr(&mut self, address: u16, data: u8)
        ensures
            !old(self).w ==> *final(self) == (Ppu {
                t: Address((old(self).t.0 & !0x3f00u16) | ((((data % 64) as u16) & 0x3f) << 8u16)),
                w: true,
                io_bus: data,
                ..*old(self)
            }),
            old(self).w ==> *final(self) == (Ppu {
                t: Address((old(self).t.0 & 0xff00) | (data as u16)),
                v: Address((old(self).t.0 & 0xff00) | (data as u16)),
                w: false,
                io_bus: data,
                ..*old(self)
            }),
    {
        if !self.w {
            self.t.set_high(data % 64);
            self.w = true;
        } else {
            self.t.set_low(data);
            self.v = Address(self.t.0);
            self.w = false;
        }
        self.io_bus = data;
    }

    /// The nametable address that `address` (0x2000-0x2FFF) is mirrored to.
    fn mirror_nametable_address(mapper: &Nrom, address: u16) -> (r: u16)
        requires
            0x2000 <= address <= 0x2fff,
        ensures
            r == nametable_mirror(mapper.mirroring, address),
            0x2000 <= r < 0x2000 + 2 * NAMETABLE_SIZE,
    {
        match mapper.mirroring() {
            // The second and fourth nametables map to the first and second
            // nametables, respectively.
            Mirroring::Horizontal => {
                if 0x2400 <= address && address <= 0x27ff {
                    address - 0x0400
                } else if 0x2800 <= address && address <= 0x2bff {
                    address - 0x0400
                } else if 0x2c00 <= address && address <= 0x2fff {
                    address - 0x0800
                } else {
                    address
                }
            },
            // The third and fourth nametables map to the first and second
            // nametables, respectively.
            Mirroring::Vertical => {
                if 0x2800 <= address && address <= 0x2fff {
                    address - 0x0800
                } else {
                    address
                }
            },
        }
    }

    /// The palette address that `address` is mirrored to.
    fn mirror_palette_address(address: u16) -> (r: u16)
        ensures
            r == palette_mirror(address),
            palette_mirror(r) == r,
            0x3f00 <= address <= 0x3fff ==> {
                &&& 0x3f00 <= r <= 0x3f1f
                &&& r != 0x3f10 && r != 0x3f14 && r != 0x3f18 && r != 0x3f1c
                &&& r == if address & 0x13 == 0x10 {
                    0x3f00 | (address & 0x0f)
                } else {
                    0x3f00 | (address & 0x1f)
                }
            },
    {
        proof {
            lemma_palette_mirror_idempotent(address);
        }
        // 0x3f20 - 0x3fff is a mirror of 0x3f00 - 0x3f1f.
        let address = address & 0x3f1f;
        if address == 0x3f10 || address == 0x3f14 || address == 0x3f18 || address == 0x3f1c {
            address - 0x10
        } else {
            address
        }
    }
}

/// A write of `data` to PPUCTRL takes the byte as the control register and
/// the open bus value, and puts its low two bits, the nametable select, in
/// the nametable field of the temporary address, whose other fields stay;
/// the VRAM address and the write toggle stay too.
pub proof fn lemma_control_write(s: Ppu, f: Ppu, data: u8)
    requires
        s.wrote_ctrl(f, data),
    ensures
        f.ctrl.0 == data,
        f.io_bus == data,
        nametable_of(f.t.0) == data % 4,
        coarse_x_of(f.t.0) == coarse_x_of(s.t.0),
        coarse_y_of(f.t.0) == coarse_y_of(s.t.0),
        fine_y_of(f.t.0) == fine_y_of(s.t.0),
        top_of(f.t.0) == top_of(s.t.0),
        f.v == s.v,
        f.w == s.w,
{
    lemma_with_nametable(s.t.0, data % 4);
}

} // verus!
