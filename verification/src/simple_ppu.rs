//! A simpler picture processing unit.
//!
//! This PPU numbers the pre-render scanline -1 and runs scanlines -1 to 260.
//! Its background shifters move, and its scroll registers advance, only while
//! the background is shown; writes to pattern memory are ignored; and the
//! pixel of every dot up to the end of the frame buffer is stored, blank
//! while the background is hidden.
use vstd::prelude::*;

use crate::cartridge::{Mirroring, NromCartridge};
use crate::cpu::status::{flag, set_flag};
use crate::ppu::address::{
    coarse_x_of, coarse_y_of, fine_y_of, lemma_nametable_bits, loaded_x, loaded_y, nametable_of,
    nametable_x_of, nametable_y_of, next_coarse_x, next_y, top_of, with_coarse_x, with_coarse_y,
    with_fine_y, with_nametable_x, with_nametable_y, Address,
};
use crate::ppu::control::{Control, BACKGROUND_PATTERN_TABLE, INCREMENT_MODE, NMI_ENABLE};
use crate::ppu::mask::{Mask, SHOW_BACKGROUND};
use crate::ppu::status::{Status, VBLANK};
use crate::ppu::{blank_frame, copy_frame, top_bit16, top_bit8, two_bits, FRAME_SIZE};

verus! {

/// The size of a nametable in bytes.
pub const NAMETABLE_SIZE: u16 = 1024;
/// The size of the palette memory in bytes.
pub const PALETTES_SIZE: usize = 32;

/// The index in nametable memory of the nametable address `address`:
/// horizontal mirroring keeps bit 11 to choose the nametable, vertical
/// mirroring keeps bit 10.
pub open spec fn nametable_index(m: Mirroring, address: u16) -> int {
    match m {
        Mirroring::Horizontal => (address as int / 0x800) % 2 * 0x400 + address as int % 0x400,
        Mirroring::Vertical => address as int % 0x800,
    }
}

/// The index in palette memory of the palette address `address`: the 32
/// bytes repeat, and the first entry of each sprite palette is the first
/// entry of the matching background palette.
pub open spec fn palette_index(address: u16) -> int {
    let i = address as int % 32;
    if i == 0x10 || i == 0x14 || i == 0x18 || i == 0x1c {
        i - 0x10
    } else {
        i
    }
}

/// The horizontal mirroring formula picks bit 11 of the address.
proof fn lemma_horizontal(address: u16)
    by (bit_vector)
    ensures
        ((address / 2) & 0x400u16) == (address / 0x800) % 2 * 0x400,
        (address & 0x0fffu16) % 0x400 == address % 0x400,
        ((address & 0x0fffu16) / 0x800) % 2 == (address / 0x800) % 2,
        (address & 0x0fffu16) % 0x800 == address % 0x800,
        address & 0x1fu16 == address % 32,
{
}

/// The address of the nametable byte of the tile at `v`.
pub open spec fn tile_address(v: u16) -> u16 {
    0x2000 | (v & 0x0fff)
}

/// The address of the attribute byte of the tile at `v`.
pub open spec fn attribute_address(v: u16) -> u16 {
    0x23c0 | ((if nametable_y_of(v) { 1u16 } else { 0u16 }) << 11u16) | ((if nametable_x_of(v) {
        1u16
    } else {
        0u16
    }) << 10u16) | (((coarse_y_of(v) as u16) >> 2u16) << 3u16) | ((coarse_x_of(v) as u16) >> 2u16)
}

/// Fetch addresses lie in the nametables.
proof fn lemma_fetch_addresses(v: u16, y: u16, x: u16, ny: u16, nx: u16)
    by (bit_vector)
    requires
        y < 32,
        x < 32,
        ny <= 1,
        nx <= 1,
    ensures
        0x2000 <= 0x2000 | (v & 0x0fff) <= 0x2fff,
        0x2000 <= 0x23c0 | (ny << 11u16) | (nx << 10u16) | ((y >> 2u16) << 3u16) | (x >> 2u16)
            <= 0x2fff,
{
}

/// Loading the shifters twice loads them once.
proof fn lemma_reload(s: u16, t: u8)
    by (bit_vector)
    ensures
        (((s & 0xff00) | (t as u16)) & 0xff00) | (t as u16) == (s & 0xff00) | (t as u16),
{
}

/// The simpler picture processing unit.
pub struct Ppu {
    /// The cartridge.
    pub cartridge: NromCartridge,
    /// The two physical nametables.
    pub nametables: Vec<u8>,
    /// The palette memory.
    pub palettes: Vec<u8>,
    /// The control register.
    pub control: Control,
    /// The mask register.
    pub mask: Mask,
    /// The status register.
    pub status: Status,
    /// Whether the next PPUSCROLL or PPUADDR write is the first of a pair.
    pub latch: bool,
    /// The VRAM address.
    pub address: Address,
    /// The temporary VRAM address.
    pub temp_address: Address,
    /// The fine X scroll.
    pub fine_x_scroll: u8,
    /// The byte that the next PPUDATA read returns.
    pub read_buffer: u8,
    /// The dot within the scanline.
    pub cycle: u16,
    /// The scanline, from -1 (pre-render) to 260.
    pub scanline: i16,
    /// The NMI output.
    pub nmi: bool,
    /// Whether a frame has been completed.
    pub is_frame_done: bool,
    /// The nametable byte of the next tile.
    pub nametable_byte: u8,
    /// The palette bits of the next tile.
    pub attribute_byte: u8,
    /// The low pattern plane of the next tile.
    pub tile_low: u8,
    /// The high pattern plane of the next tile.
    pub tile_high: u8,
    /// The low pattern plane shifter.
    pub background_shifter_low: u16,
    /// The high pattern plane shifter.
    pub background_shifter_high: u16,
    /// The low palette bit shifter.
    pub palette_shifter_low: u8,
    /// The high palette bit shifter.
    pub palette_shifter_high: u8,
    /// The low palette bit of the tile in the shifters.
    pub attribute_latch_low: u8,
    /// The high palette bit of the tile in the shifters.
    pub attribute_latch_high: u8,
    /// The frame being drawn, one (pixel, palette) pair per dot.
    pub frame: Vec<(u8, u8)>,
    /// The last complete frame.
    pub done_frame: Vec<(u8, u8)>,
}

impl Ppu {
    /// The vectors have their sizes, the position is inside the frame and
    /// the fine X scroll is a pixel of a tile.
    pub open spec fn wf(&self) -> bool {
        &&& self.nametables@.len() == 2 * NAMETABLE_SIZE
        &&& self.palettes@.len() == PALETTES_SIZE
        &&& self.frame@.len() == FRAME_SIZE
        &&& self.done_frame@.len() == FRAME_SIZE
        &&& self.cycle < 341
        &&& -1 <= self.scanline <= 260
        &&& self.fine_x_scroll < 8
    }

    /// A PPU read of `address` does not panic.
    pub open spec fn can_read(&self, address: u16) -> bool {
        &&& address <= 0x3fff
        &&& address < 0x2000 ==> address < self.cartridge.chr_rom@.len()
    }

    /// The byte that a PPU read of `address` returns.
    pub open spec fn peek(&self, address: u16) -> u8 {
        if address < 0x2000 {
            self.cartridge.chr_rom@[address as int]
        } else if address < 0x3f00 {
            self.nametables@[nametable_index(self.cartridge.mirroring, address)]
        } else {
            self.palettes@[palette_index(address)]
        }
    }

    /// `f` is `self` after a PPU write of `data` to `address`: pattern
    /// addresses ignore it.
    pub open spec fn poked(&self, f: Ppu, address: u16, data: u8) -> bool {
        &&& address < 0x2000 ==> f == *self
        &&& 0x2000 <= address < 0x3f00 ==> f.nametables@ == self.nametables@.update(
            nametable_index(self.cartridge.mirroring, address),
            data,
        ) && f == (Ppu { nametables: f.nametables, ..*self })
        &&& 0x3f00 <= address ==> f.palettes@ == self.palettes@.update(palette_index(address), data)
            && f == (Ppu { palettes: f.palettes, ..*self })
    }

    /// The amount by which a PPUDATA access advances the VRAM address.
    pub open spec fn data_step(&self) -> int {
        if flag(self.control.0, INCREMENT_MODE) {
            32
        } else {
            1
        }
    }

    /// Creates a PPU at the first dot of scanline 0 with cleared memory and
    /// registers.
    pub fn new(cartridge: NromCartridge) -> (ppu: Ppu)
        ensures
            ppu.wf(),
            ppu.cartridge == cartridge,
            ppu.nametables@ == Seq::new(2 * NAMETABLE_SIZE as nat, |i: int| 0u8),
            ppu.palettes@ == Seq::new(PALETTES_SIZE as nat, |i: int| 0u8),
            ppu.frame@ == Seq::new(FRAME_SIZE as nat, |i: int| (0u8, 0u8)),
            ppu.done_frame@ == Seq::new(FRAME_SIZE as nat, |i: int| (0u8, 0u8)),
            ppu.control.0 == 0,
            ppu.mask.0 == 0,
            ppu.status.0 == 0,
            ppu.latch,
            ppu.address.0 == 0,
            ppu.temp_address.0 == 0,
            ppu.fine_x_scroll == 0,
            ppu.read_buffer == 0,
            ppu.cycle == 0,
            ppu.scanline == 0,
            !ppu.nmi,
            !ppu.is_frame_done,
            ppu.nametable_byte == 0,
            ppu.attribute_byte == 0,
            ppu.tile_low == 0,
            ppu.tile_high == 0,
            ppu.background_shifter_low == 0,
            ppu.background_shifter_high == 0,
            ppu.palette_shifter_low == 0,
            ppu.palette_shifter_high == 0,
            ppu.attribute_latch_low == 0,
            ppu.attribute_latch_high == 0,
    {
        let nametables: Vec<u8> = vec![0; 2 * NAMETABLE_SIZE as usize];
        let palettes: Vec<u8> = vec![0; PALETTES_SIZE];
        assert(nametables@ =~= Seq::new(2 * NAMETABLE_SIZE as nat, |i: int| 0u8));
        assert(palettes@ =~= Seq::new(PALETTES_SIZE as nat, |i: int| 0u8));
        Ppu {
            cartridge,
            nametables,
            palettes,
            control: Control(0),
            mask: Mask(0),
            status: Status(0),
            latch: true,
            address: Address(0),
            temp_address: Address(0),
            fine_x_scroll: 0,
            read_buffer: 0,
            cycle: 0,
            scanline: 0,
            nmi: false,
            is_frame_done: false,
            nametable_byte: 0,
            attribute_byte: 0,
            tile_low: 0,
            tile_high: 0,
            background_shifter_low: 0,
            background_shifter_high: 0,
            palette_shifter_low: 0,
            palette_shifter_high: 0,
            attribute_latch_low: 0,
            attribute_latch_high: 0,
            frame: blank_frame(),
            done_frame: blank_frame(),
        }
    }

    /// Reads the byte at PPU address `address`.
    pub fn read(&self, address: u16) -> (data: u8)
        requires
            self.wf(),
            self.can_read(address),
        ensures
            data == self.peek(address),
    {
        proof {
            lemma_horizontal(address);
        }
        if address <= 0x1fff {
            self.cartridge._read_chr(address)
        } else if address <= 0x3eff {
            let index = match self.cartridge._mirroring() {
                Mirroring::Horizontal => {
                    let base = (address / 2) & NAMETABLE_SIZE;
                    let offset = address % NAMETABLE_SIZE;
                    base + offset
                },
                Mirroring::Vertical => address % (2 * NAMETABLE_SIZE),
            };
            self.nametables[index as usize]
        } else {
            // 0x3f20 - 0x3fff is a mirror of 0x3f00 - 0x3f1f.
            let index = address & 0x1f;
            let index = if index == 0x10 || index == 0x14 || index == 0x18 || index == 0x1c {
                index - 0x10
            } else {
                index
            };
            self.palettes[index as usize]
        }
    }

    /// Writes `data` to PPU address `address`; writes to pattern memory are
    /// ignored.
    pub fn write(&mut self, address: u16, data: u8)
        requires
            old(self).wf(),
            address <= 0x3fff,
        ensures
            final(self).wf(),
            old(self).poked(*final(self), address, data),
    {
        proof {
            lemma_horizontal(address);
        }
        if address <= 0x1fff {
        } else if address <= 0x3eff {
            let address = address & 0x0fff;
            proof {
                lemma_horizontal(address);
            }
            let index = match self.cartridge._mirroring() {
                Mirroring::Horizontal => {
                    let base = (address / 2) & NAMETABLE_SIZE;
                    let offset = address % NAMETABLE_SIZE;
                    base + offset
                },
                Mirroring::Vertical => address % (2 * NAMETABLE_SIZE),
            };
            self.nametables.set(index as usize, data);
        } else {
            // 0x3f20 - 0x3fff is a mirror of 0x3f00 - 0x3f1f.
            let index = address & 0x1f;
            let index = if index == 0x10 || index == 0x14 || index == 0x18 || index == 0x1c {
                index - 0x10
            } else {
                index
            };
            self.palettes.set(index as usize, data);
        }
    }

    /// The dot that this tick works on: the first dot of scanline 0 is
    /// skipped.
    pub open spec fn dot(&self) -> int {
        if self.scanline == 0 && self.cycle == 0 {
            1
        } else {
            self.cycle as int
        }
    }

    /// The scanline is the pre-render scanline or a visible one.
    pub open spec fn render_line(&self) -> bool {
        self.scanline < 240
    }

    /// The dot shifts the background shifters and takes part in a tile
    /// fetch.
    pub open spec fn fetch_dot(&self) -> bool {
        &&& self.render_line()
        &&& (2 <= self.dot() < 258 || 321 <= self.dot() < 338)
    }

    /// The step of the eight-dot tile fetch that the dot performs.
    pub open spec fn phase(&self) -> int {
        (self.dot() - 1) % 8
    }

    /// Whether the background is shown.
    pub open spec fn background(&self) -> bool {
        flag(self.mask.0, SHOW_BACKGROUND)
    }

    /// The address of the low plane of the pattern row of the next tile.
    pub open spec fn pattern_address(&self) -> int {
        (if flag(self.control.0, BACKGROUND_PATTERN_TABLE) { 0x1000int } else { 0int })
            + self.nametable_byte * 16 + fine_y_of(self.address.0)
    }

    /// The pattern fetches of a fetch dot fall inside the CHR ROM.
    pub open spec fn can_tick(&self) -> bool {
        &&& self.wf()
        &&& self.fetch_dot() && self.phase() == 4 ==> self.pattern_address()
            < self.cartridge.chr_rom@.len()
        &&& self.fetch_dot() && self.phase() == 6 ==> self.pattern_address() + 8
            < self.cartridge.chr_rom@.len()
    }

    /// The VRAM address after this dot: while the background is shown, the
    /// tile column advances on the last step of each fetch, the row on dot
    /// 256, the horizontal scroll is reloaded on dot 257 and the vertical
    /// scroll on dots 280 to 304 of the pre-render scanline.
    pub open spec fn next_address(&self) -> u16 {
        let v = self.address.0;
        let d = self.dot();
        if !self.render_line() || !self.background() {
            v
        } else if d == 256 {
            next_y(next_coarse_x(v))
        } else if self.fetch_dot() && self.phase() == 7 {
            next_coarse_x(v)
        } else if d == 257 {
            loaded_x(v, self.temp_address.0)
        } else if self.scanline == -1 && 280 <= d < 305 {
            loaded_y(v, self.temp_address.0)
        } else {
            v
        }
    }

    /// The nametable byte after this dot.
    pub open spec fn next_nametable_byte(&self) -> u8 {
        if self.render_line() && ((self.fetch_dot() && self.phase() == 0) || self.dot() == 338
            || self.dot() == 340) {
            self.peek(tile_address(self.address.0))
        } else {
            self.nametable_byte
        }
    }

    /// The attribute bits after this dot.
    pub open spec fn next_attribute_byte(&self) -> u8 {
        if self.fetch_dot() && self.phase() == 2 {
            crate::ppu::Ppu::attribute_quarter(
                self.peek(attribute_address(self.address.0)),
                self.address.0,
            )
        } else {
            self.attribute_byte
        }
    }

    /// The low pattern plane after this dot.
    pub open spec fn next_tile_low(&self) -> u8 {
        if self.fetch_dot() && self.phase() == 4 {
            self.peek(self.pattern_address() as u16)
        } else {
            self.tile_low
        }
    }

    /// The high pattern plane after this dot.
    pub open spec fn next_tile_high(&self) -> u8 {
        if self.fetch_dot() && self.phase() == 6 {
            self.peek((self.pattern_address() + 8) as u16)
        } else {
            self.tile_high
        }
    }

    /// The shifters are loaded on the first step of each fetch and on dot
    /// 257.
    pub open spec fn loads(&self) -> bool {
        (self.fetch_dot() && self.phase() == 0) || (self.render_line() && self.dot() == 257)
    }

    /// The PPU after this dot's shift and load of the background shifters.
    pub open spec fn shifted(&self) -> Ppu {
        let s = if self.fetch_dot() && self.background() {
            Ppu {
                background_shifter_low: self.background_shifter_low << 1u16,
                background_shifter_high: self.background_shifter_high << 1u16,
                palette_shifter_low: (self.palette_shifter_low << 1u8) | self.attribute_latch_low,
                palette_shifter_high: (self.palette_shifter_high << 1u8)
                    | self.attribute_latch_high,
                ..*self
            }
        } else {
            *self
        };
        if self.loads() {
            Ppu {
                background_shifter_low: (s.background_shifter_low & 0xff00) | (
                s.tile_low as u16),
                background_shifter_high: (s.background_shifter_high & 0xff00) | (
                s.tile_high as u16),
                attribute_latch_low: s.attribute_byte & 1,
                attribute_latch_high: (s.attribute_byte & 0x2) >> 1u8,
                ..s
            }
        } else {
            s
        }
    }

    /// The pixel value and palette that this dot draws: blank while the
    /// background is hidden.
    pub open spec fn pixel(&self) -> (u8, u8) {
        if self.background() {
            let s = self.shifted();
            (
                two_bits(
                    top_bit16(s.background_shifter_high, self.fine_x_scroll),
                    top_bit16(s.background_shifter_low, self.fine_x_scroll),
                ),
                two_bits(
                    top_bit8(s.palette_shifter_high, self.fine_x_scroll),
                    top_bit8(s.palette_shifter_low, self.fine_x_scroll),
                ),
            )
        } else {
            (0, 0)
        }
    }

    /// The frame buffer index of this dot.
    pub open spec fn frame_index(&self) -> int {
        self.scanline * 256 + self.dot()
    }

    /// The frame being drawn after this dot: every dot of scanlines 0 and
    /// up whose index falls in the buffer stores its pixel.
    pub open spec fn next_frame(&self) -> Seq<(u8, u8)> {
        if self.scanline != -1 && self.frame_index() < FRAME_SIZE {
            self.frame@.update(self.frame_index(), self.pixel())
        } else {
            self.frame@
        }
    }

    /// The status register after this dot: the second dot of the pre-render
    /// scanline clears the vertical blank flag and the second dot of
    /// scanline 241 sets it.
    pub open spec fn next_status(&self) -> u8 {
        if self.scanline == -1 && self.dot() == 1 {
            set_flag(self.status.0, VBLANK, false)
        } else if self.scanline == 241 && self.cycle == 1 {
            set_flag(self.status.0, VBLANK, true)
        } else {
            self.status.0
        }
    }

    /// This dot is the last of scanline 260, after which the frame is done.
    pub open spec fn ends_frame(&self) -> bool {
        self.scanline == 260 && self.dot() == 340
    }

    /// `f` is the PPU one dot after `self`.
    pub open spec fn ticks_to(&self, f: Ppu) -> bool {
        let d = self.dot();
        &&& f.wf()
        &&& f.cycle == if d == 340 { 0 } else { d + 1 }
        &&& f.scanline == if d < 340 {
            self.scanline as int
        } else if self.scanline == 260 {
            -1
        } else {
            self.scanline + 1
        }
        &&& f.address.0 == self.next_address()
        &&& f.status.0 == self.next_status()
        &&& f.nmi == if self.scanline == 241 && self.cycle == 1 {
            flag(self.control.0, NMI_ENABLE)
        } else {
            self.nmi
        }
        &&& f.nametable_byte == self.next_nametable_byte()
        &&& f.attribute_byte == self.next_attribute_byte()
        &&& f.tile_low == self.next_tile_low()
        &&& f.tile_high == self.next_tile_high()
        &&& f.background_shifter_low == self.shifted().background_shifter_low
        &&& f.background_shifter_high == self.shifted().background_shifter_high
        &&& f.palette_shifter_low == self.shifted().palette_shifter_low
        &&& f.palette_shifter_high == self.shifted().palette_shifter_high
        &&& f.attribute_latch_low == self.shifted().attribute_latch_low
        &&& f.attribute_latch_high == self.shifted().attribute_latch_high
        &&& f.frame@ == self.next_frame()
        &&& self.ends_frame() ==> f.is_frame_done && f.done_frame@ == f.frame@
        &&& !self.ends_frame() ==> f.is_frame_done == self.is_frame_done && f.done_frame
            == self.done_frame
        &&& f.cartridge == self.cartridge
        &&& f.nametables == self.nametables
        &&& f.palettes == self.palettes
        &&& f.control == self.control
        &&& f.mask == self.mask
        &&& f.latch == self.latch
        &&& f.temp_address == self.temp_address
        &&& f.fine_x_scroll == self.fine_x_scroll
        &&& f.read_buffer == self.read_buffer
    }

    /// Advances the PPU by one dot.
    #[verifier::rlimit(80)]
    #[verifier::spinoff_prover]
    pub fn tick(&mut self)
        requires
            old(self).can_tick(),
        ensures
            old(self).ticks_to(*final(self)),
    {
        let ghost o = *self;
        if self.scanline >= -1 && self.scanline < 240 {
            if self.scanline == 0 && self.cycle == 0 {
                self.cycle = 1;
            }
            if self.scanline == -1 && self.cycle == 1 {
                self.status.set_vblank(false);
            }
            if (self.cycle >= 2 && self.cycle < 258) || (self.cycle >= 321 && self.cycle < 338) {
                self.update_shifters();
                let phase = (self.cycle - 1) % 8;
                if phase == 0 {
                    self.load_background_shifters();
                    self.nametable_byte = self.fetch_nametable_byte();
                } else if phase == 2 {
                    self.attribute_byte = self.fetch_attribute_byte();
                } else if phase == 4 {
                    let address = self.background_pattern_address();
                    self.tile_low = self.read(address);
                } else if phase == 6 {
                    let address = self.background_pattern_address() + 8;
                    self.tile_high = self.read(address);
                } else if phase == 7 {
                    self.increment_scroll_x();
                }
            }
            if self.cycle == 256 {
                self.increment_scroll_y();
            }
            if self.cycle == 257 {
                proof {
                    let bg = o.background();
                    lemma_reload(
                        if bg { o.background_shifter_low << 1u16 } else { o.background_shifter_low },
                        self.tile_low,
                    );
                    lemma_reload(
                        if bg { o.background_shifter_high << 1u16 } else { o.background_shifter_high },
                        self.tile_high,
                    );
                }
                self.load_background_shifters();
                self.transfer_x_address();
            }
            if self.cycle == 338 || self.cycle == 340 {
                self.nametable_byte = self.fetch_nametable_byte();
            }
            if self.scanline == -1 && self.cycle >= 280 && self.cycle < 305 {
                self.transfer_y_address();
            }
        }
        assert(self.address.0 == o.next_address());
        assert(self.nametable_byte == o.next_nametable_byte());
        assert(self.attribute_byte == o.next_attribute_byte());
        assert(self.tile_low == o.next_tile_low());
        assert(self.tile_high == o.next_tile_high());
        assert(self.background_shifter_low == o.shifted().background_shifter_low);
        assert(self.background_shifter_high == o.shifted().background_shifter_high);
        assert(self.palette_shifter_low == o.shifted().palette_shifter_low);
        assert(self.palette_shifter_high == o.shifted().palette_shifter_high);
        assert(self.attribute_latch_low == o.shifted().attribute_latch_low);
        assert(self.attribute_latch_high == o.shifted().attribute_latch_high);
        assert(self.cycle == o.dot());
        if self.scanline == 241 && self.cycle == 1 {
            self.status.set_vblank(true);
            self.nmi = self.control.nmi();
        }
        assert(self.status.0 == o.next_status());

        let mut pixel_value: u8 = 0;
        let mut palette: u8 = 0;
        if self.mask.show_background() {
            let selected_bit: u16 = 0x8000u16 >> self.fine_x_scroll;
            let pixel_low = (self.background_shifter_low & selected_bit) > 0;
            let pixel_high = (self.background_shifter_high & selected_bit) > 0;
            pixel_value = (if pixel_high { 2 } else { 0 }) + (if pixel_low { 1 } else { 0 });

            let pal_selected_bit: u8 = 0x80u8 >> self.fine_x_scroll;
            let pal_low = (self.palette_shifter_low & pal_selected_bit) > 0;
            let pal_high = (self.palette_shifter_high & pal_selected_bit) > 0;
            palette = (if pal_high { 2 } else { 0 }) + (if pal_low { 1 } else { 0 });
        }

        assert((pixel_value, palette) == o.pixel());
        if self.scanline != -1 && (self.scanline as usize * 256 + (self.cycle as usize)) < 256
            * 240 {
            let index = self.scanline as usize * 256 + self.cycle as usize;
            self.frame.set(index, (pixel_value, palette));
        }

        self.cycle = self.cycle + 1;
        if self.cycle >= 341 {
            self.cycle = 0;
            self.scanline = self.scanline + 1;
            if self.scanline >= 261 {
                self.scanline = -1;
                self.is_frame_done = true;
                copy_frame(&mut self.done_frame, &self.frame);
            }
        }
    }

    /// Reads the nametable byte of the tile at the VRAM address.
    fn fetch_nametable_byte(&self) -> (r: u8)
        requires
            self.wf(),
        ensures
            r == self.peek(tile_address(self.address.0)),
    {
        proof {
            lemma_fetch_addresses(self.address.0, 0, 0, 0, 0);
        }
        self.read(0x2000 | (self.address.0 & 0x0fff))
    }

    /// Reads the palette bits of the tile at the VRAM address.
    fn fetch_attribute_byte(&self) -> (r: u8)
        requires
            self.wf(),
        ensures
            r == crate::ppu::Ppu::attribute_quarter(
                self.peek(attribute_address(self.address.0)),
                self.address.0,
            ),
    {
        let ny: u16 = if self.address.nametable_y() { 1 } else { 0 };
        let nx: u16 = if self.address.nametable_x() { 1 } else { 0 };
        let y = self.address.coarse_y_scroll();
        let x = self.address.coarse_x_scroll();
        proof {
            lemma_fetch_addresses(self.address.0, y as u16, x as u16, ny, nx);
        }
        let mut attribute_byte = self.read(
            0x23c0 | (ny << 11u16) | (nx << 10u16) | (((y as u16) >> 2u16) << 3u16) | ((x as u16)
                >> 2u16),
        );
        attribute_byte = attribute_byte >> (if y & 0x02 != 0 { 4u8 } else { 0u8 });
        attribute_byte = attribute_byte >> (if x & 0x02 != 0 { 2u8 } else { 0u8 });
        attribute_byte & 0x03
    }

    /// The address of the low plane of the pattern row of the next tile.
    fn background_pattern_address(&self) -> (r: u16)
        ensures
            r == self.pattern_address(),
    {
        let table: u16 = if self.control.background_pattern_table() { 0x1000 } else { 0 };
        proof {
            crate::ppu::address::lemma_fields(self.address.0);
        }
        table + (self.nametable_byte as u16) * 16 + self.address.fine_y_scroll() as u16
    }

    /// Loads the fetched pattern planes into the low bytes of the tile
    /// shifters and the fetched palette bits into the attribute latches.
    fn load_background_shifters(&mut self)
        ensures
            *final(self) == (Ppu {
                background_shifter_low: (old(self).background_shifter_low & 0xff00) | (
                old(self).tile_low as u16),
                background_shifter_high: (old(self).background_shifter_high & 0xff00) | (
                old(self).tile_high as u16),
                attribute_latch_low: old(self).attribute_byte & 1,
                attribute_latch_high: (old(self).attribute_byte & 0x2) >> 1u8,
                ..*old(self)
            }),
    {
        self.background_shifter_low = (self.background_shifter_low & 0xff00)
            | self.tile_low as u16;
        self.background_shifter_high = (self.background_shifter_high & 0xff00)
            | self.tile_high as u16;
        self.attribute_latch_low = self.attribute_byte & 1;
        self.attribute_latch_high = (self.attribute_byte & 0x2) >> 1u8;
    }

    /// Shifts the background shifters by one pixel while the background is
    /// shown.
    fn update_shifters(&mut self)
        ensures
            *final(self) == if old(self).background() {
                Ppu {
                    background_shifter_low: old(self).background_shifter_low << 1u16,
                    background_shifter_high: old(self).background_shifter_high << 1u16,
                    palette_shifter_low: (old(self).palette_shifter_low << 1u8)
                        | old(self).attribute_latch_low,
                    palette_shifter_high: (old(self).palette_shifter_high << 1u8)
                        | old(self).attribute_latch_high,
                    ..*old(self)
                }
            } else {
                *old(self)
            },
    {
        if self.mask.show_background() {
            self.background_shifter_low = self.background_shifter_low << 1u16;
            self.background_shifter_high = self.background_shifter_high << 1u16;
            self.palette_shifter_low = (self.palette_shifter_low << 1u8)
                | self.attribute_latch_low;
            self.palette_shifter_high = (self.palette_shifter_high << 1u8)
                | self.attribute_latch_high;
        }
    }

    /// Moves to the next tile column while the background is shown.
    fn increment_scroll_x(&mut self)
        ensures
            *final(self) == if old(self).background() {
                Ppu { address: Address(next_coarse_x(old(self).address.0)), ..*old(self) }
            } else {
                *old(self)
            },
    {
        if self.mask.show_background() {
            self.address.increment_coarse_x_scroll();
        }
    }

    /// Moves to the next pixel row while the background is shown.
    fn increment_scroll_y(&mut self)
        ensures
            *final(self) == if old(self).background() {
                Ppu { address: Address(next_y(old(self).address.0)), ..*old(self) }
            } else {
                *old(self)
            },
    {
        if self.mask.show_background() {
            self.address.increment_y_scroll();
        }
    }

    /// Copies the horizontal scroll from the temporary address while the
    /// background is shown.
    fn transfer_x_address(&mut self)
        ensures
            *final(self) == if old(self).background() {
                Ppu {
                    address: Address(loaded_x(old(self).address.0, old(self).temp_address.0)),
                    ..*old(self)
                }
            } else {
                *old(self)
            },
    {
        if self.mask.show_background() {
            let t = self.temp_address;
            self.address.load_x_scroll(&t);
        }
    }

    /// Copies the vertical scroll from the temporary address while the
    /// background is shown.
    fn transfer_y_address(&mut self)
        ensures
            *final(self) == if old(self).background() {
                Ppu {
                    address: Address(loaded_y(old(self).address.0, old(self).temp_address.0)),
                    ..*old(self)
                }
            } else {
                *old(self)
            },
    {
        if self.mask.show_background() {
            let t = self.temp_address;
            self.address.load_y_scroll(&t);
        }
    }

    /// A register read of `address` does not panic: only PPUSTATUS and
    /// PPUDATA are readable, and PPUDATA must not carry the VRAM address
    /// past 0xFFFF.
    pub open spec fn can_read_register(&self, address: u16) -> bool {
        &&& self.wf()
        &&& address == 0x2002 || address == 0x2007
        &&& address == 0x2007 ==> self.address.0 + self.data_step() <= u16::MAX
    }

    /// Reads the PPU register at CPU address `address`.
    ///
    /// PPUSTATUS returns the status flags over the low five bits of the read
    /// buffer and clears the vertical blank flag and the write latch.
    /// PPUDATA returns the read buffer, refills it with the PPU byte at
    /// `address` and advances the VRAM address.
    pub fn read_register(&mut self, address: u16) -> (data: u8)
        requires
            old(self).can_read_register(address),
        ensures
            final(self).wf(),
            address == 0x2002 ==> data == old(self).status.0 | (old(self).read_buffer & 0x1f)
                && *final(self) == (Ppu {
                status: Status(set_flag(old(self).status.0, VBLANK, false)),
                latch: true,
                ..*old(self)
            }),
            address == 0x2007 ==> data == old(self).read_buffer && *final(self) == (Ppu {
                read_buffer: old(self).peek(address),
                address: Address((old(self).address.0 + old(self).data_step()) as u16),
                ..*old(self)
            }),
    {
        if address == 0x2002 {
            let data = self.status.0 | (self.read_buffer & 0x1f);
            self.status.set_vblank(false);
            self.latch = true;
            data
        } else {
            let mut data = self.read_buffer;
            self.read_buffer = self.read(address);
            if address > 0x3f00 {
                data = self.read_buffer;
            }
            let step: u16 = if self.control.increment_mode() { 32 } else { 1 };
            self.address.0 = self.address.0 + step;
            data
        }
    }

    /// A register write to `address` does not panic: a PPUDATA write must
    /// go to a PPU address and must not carry the VRAM address past 0xFFFF.
    pub open spec fn can_write_register(&self, address: u16) -> bool {
        &&& self.wf()
        &&& address == 0x2007 ==> self.address.0 <= 0x3fff
        &&& address == 0x2007 ==> self.address.0 + self.data_step() <= u16::MAX
    }

    /// `f` is the PPU after a write of `data` to PPUCTRL: the byte becomes
    /// the control register and its nametable bits go to the temporary
    /// address.
    pub open spec fn wrote_control(&self, f: Ppu, data: u8) -> bool {
        f == (Ppu {
            control: Control(data),
            temp_address: Address(
                with_nametable_y(with_nametable_x(self.temp_address.0, flag(data, 0)), flag(data, 1)),
            ),
            ..*self
        })
    }

    /// Writes `data` to the PPU register at CPU address `address`.
    ///
    /// PPUCTRL (0x2000) takes the byte and copies its nametable bits to the
    /// temporary address; PPUMASK (0x2001) takes the byte. PPUSCROLL (0x2005)
    /// takes the X scroll and then the Y scroll, and PPUADDR (0x2006) the
    /// high and then the low byte of the temporary address, copying it to
    /// the VRAM address after the low byte; both flip the latch. PPUDATA
    /// (0x2007) writes the byte at the VRAM address and advances it. Other
    /// registers ignore the write.
    pub fn write_register(&mut self, address: u16, data: u8)
        requires
            old(self).can_write_register(address),
        ensures
            final(self).wf(),
            address == 0x2000 ==> old(self).wrote_control(*final(self), data),
            address == 0x2001 ==> *final(self) == (Ppu { mask: Mask(data), ..*old(self) }),
            address == 0x2005 && old(self).latch ==> *final(self) == (Ppu {
                fine_x_scroll: data % 8,
                temp_address: Address(with_coarse_x(old(self).temp_address.0, data / 8)),
                latch: false,
                ..*old(self)
            }),
            address == 0x2005 && !old(self).latch ==> *final(self) == (Ppu {
                temp_address: Address(
                    with_coarse_y(with_fine_y(old(self).temp_address.0, data % 8), data / 8),
                ),
                latch: true,
                ..*old(self)
            }),
            address == 0x2006 && old(self).latch ==> *final(self) == (Ppu {
                temp_address: Address(
                    (old(self).temp_address.0 & !0x3f00u16) | ((((data % 64) as u16) & 0x3f)
                        << 8u16),
                ),
                latch: false,
                ..*old(self)
            }),
            address == 0x2006 && !old(self).latch ==> *final(self) == (Ppu {
                temp_address: Address((old(self).temp_address.0 & 0xff00) | (data as u16)),
                address: Address((old(self).temp_address.0 & 0xff00) | (data as u16)),
                latch: true,
                ..*old(self)
            }),
            address == 0x2007 ==> exists|p: Ppu|
                old(self).poked(p, old(self).address.0, data) && *final(self) == (Ppu {
                    address: Address((old(self).address.0 + old(self).data_step()) as u16),
                    ..p
                }),
            !(0x2000 <= address <= 0x2001 || 0x2005 <= address <= 0x2007) ==> *final(self)
                == *old(self),
    {
        if address == 0x2000 {
            self.control = Control(data);
            let x = crate::bit::test_bit(data, 0);
            let y = crate::bit::test_bit(data, 1);
            self.temp_address.set_nametable_x(x);
            self.temp_address.set_nametable_y(y);
        } else if address == 0x2001 {
            self.mask = Mask(data);
        } else if address == 0x2005 {
            if self.latch {
                self.fine_x_scroll = data % 8;
                self.temp_address.set_coarse_x_scroll(data / 8);
            } else {
                self.temp_address.set_fine_y_scroll(data % 8);
                self.temp_address.set_coarse_y_scroll(data / 8);
            }
            self.latch = !self.latch;
        } else if address == 0x2006 {
            if self.latch {
                self.temp_address.set_high(data % 64);
            } else {
                self.temp_address.set_low(data);
                self.address = Address(self.temp_address.0);
            }
            self.latch = !self.latch;
        } else if address == 0x2007 {
            let step: u16 = if self.control.increment_mode() { 32 } else { 1 };
            self.write(self.address.0, data);
            let ghost p = *self;
            self.address.0 = self.address.0 + step;
            assert(*self == (Ppu { address: Address(self.address.0), ..p }));
        }
    }
}

/// A write of `data` to PPUCTRL takes the byte as the control register and
/// puts its low two bits, the nametable select, in the nametable field of
/// the temporary address, whose other fields stay; the VRAM address and the
/// write latch stay too.
pub proof fn lemma_control_write(s: Ppu, f: Ppu, data: u8)
    requires
        s.wrote_control(f, data),
    ensures
        f.control.0 == data,
        nametable_of(f.temp_address.0) == data % 4,
        coarse_x_of(f.temp_address.0) == coarse_x_of(s.temp_address.0),
        coarse_y_of(f.temp_address.0) == coarse_y_of(s.temp_address.0),
        fine_y_of(f.temp_address.0) == fine_y_of(s.temp_address.0),
        top_of(f.temp_address.0) == top_of(s.temp_address.0),
        f.address == s.address,
        f.latch == s.latch,
{
    lemma_nametable_bits(s.temp_address.0, data);
    assert(flag(data, 0) == (data & 1 != 0) && flag(data, 1) == (data & 2 != 0)) by (bit_vector);
}

} // verus!
