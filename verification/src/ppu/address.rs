//! The PPU's VRAM address register.
//!
//! During rendering the register doubles as the scroll position:
//!
//! ```text
//! bits  0..5   coarse X scroll (tile column)
//! bits  5..10  coarse Y scroll (tile row)
//! bit   10     horizontal nametable select
//! bit   11     vertical nametable select
//! bits 12..15  fine Y scroll (pixel row within the tile)
//! ```
use vstd::prelude::*;

verus! {

/// The number of tile columns in a nametable.
pub const TILE_COLUMNS: u8 = 32;
/// The number of tile rows in a nametable.
pub const TILE_ROWS: u8 = 30;
/// The height of a tile in pixels.
pub const TILE_HEIGHT: u8 = 8;

/// The coarse X scroll of the address `v`.
pub open spec fn coarse_x_of(v: u16) -> u8 {
    (v & 0x1f) as u8
}

/// The coarse Y scroll of the address `v`.
pub open spec fn coarse_y_of(v: u16) -> u8 {
    ((v >> 5u16) & 0x1f) as u8
}

/// The two nametable select bits of the address `v`.
pub open spec fn nametable_of(v: u16) -> u8 {
    ((v >> 10u16) & 0x3) as u8
}

/// The fine Y scroll of the address `v`.
pub open spec fn fine_y_of(v: u16) -> u8 {
    ((v >> 12u16) & 0x7) as u8
}

/// The horizontal nametable select bit of the address `v`.
pub open spec fn nametable_x_of(v: u16) -> bool {
    (v >> 10u16) & 1 == 1
}

/// The vertical nametable select bit of the address `v`.
pub open spec fn nametable_y_of(v: u16) -> bool {
    (v >> 11u16) & 1 == 1
}

/// The top bit of the address `v`, which no field covers.
pub open spec fn top_of(v: u16) -> bool {
    (v >> 15u16) & 1 == 1
}

/// The horizontal tile position of the address `v` across both horizontal
/// nametables, from 0 to 63.
pub open spec fn tile_x_of(v: u16) -> int {
    (if nametable_x_of(v) { 32int } else { 0int }) + coarse_x_of(v)
}

/// The vertical pixel position of the address `v` across both vertical
/// nametables, for a coarse Y scroll inside the nametable (below 30): from 0
/// to 479.
pub open spec fn pixel_y_of(v: u16) -> int {
    (if nametable_y_of(v) { 240int } else { 0int }) + coarse_y_of(v) * 8 + fine_y_of(v)
}

/// `a` and `b` agree on the fields that scroll vertically.
pub open spec fn same_y(a: u16, b: u16) -> bool {
    &&& coarse_y_of(a) == coarse_y_of(b)
    &&& fine_y_of(a) == fine_y_of(b)
    &&& nametable_y_of(a) == nametable_y_of(b)
}

/// `a` and `b` agree on the fields that scroll horizontally.
pub open spec fn same_x(a: u16, b: u16) -> bool {
    &&& coarse_x_of(a) == coarse_x_of(b)
    &&& nametable_x_of(a) == nametable_x_of(b)
}

/// `v` with the coarse X scroll set to the low five bits of `x`.
pub open spec fn with_coarse_x(v: u16, x: u8) -> u16 {
    (v & !0x1fu16) | ((x as u16) & 0x1f)
}

/// `v` with the coarse Y scroll set to the low five bits of `y`.
pub open spec fn with_coarse_y(v: u16, y: u8) -> u16 {
    (v & !0x3e0u16) | (((y as u16) & 0x1f) << 5u16)
}

/// `v` with the nametable select bits set to the low two bits of `n`.
pub open spec fn with_nametable(v: u16, n: u8) -> u16 {
    (v & !0xc00u16) | (((n as u16) & 0x3) << 10u16)
}

/// `v` with the fine Y scroll set to the low three bits of `y`.
pub open spec fn with_fine_y(v: u16, y: u8) -> u16 {
    (v & !0x7000u16) | (((y as u16) & 0x7) << 12u16)
}

/// `v` with the horizontal nametable select bit set to `b`.
pub open spec fn with_nametable_x(v: u16, b: bool) -> u16 {
    if b {
        v | 0x400u16
    } else {
        v & !0x400u16
    }
}

/// `v` with the vertical nametable select bit set to `b`.
pub open spec fn with_nametable_y(v: u16, b: bool) -> u16 {
    if b {
        v | 0x800u16
    } else {
        v & !0x800u16
    }
}

/// `v` moved to the next tile column.
pub open spec fn next_coarse_x(v: u16) -> u16 {
    if coarse_x_of(v) == TILE_COLUMNS - 1 {
        with_nametable_x(with_coarse_x(v, 0), !nametable_x_of(v))
    } else {
        with_coarse_x(v, (coarse_x_of(v) + 1) as u8)
    }
}

/// `v` moved to the next pixel row.
pub open spec fn next_y(v: u16) -> u16 {
    if fine_y_of(v) < TILE_HEIGHT - 1 {
        with_fine_y(v, (fine_y_of(v) + 1) as u8)
    } else if coarse_y_of(v) == TILE_ROWS - 1 {
        with_nametable_y(with_coarse_y(with_fine_y(v, 0), 0), !nametable_y_of(v))
    } else if coarse_y_of(v) == 31 {
        with_coarse_y(with_fine_y(v, 0), 0)
    } else {
        with_coarse_y(with_fine_y(v, 0), (coarse_y_of(v) + 1) as u8)
    }
}

/// `v` with the horizontal scroll fields of `t`.
pub open spec fn loaded_x(v: u16, t: u16) -> u16 {
    with_nametable_x(with_coarse_x(v, coarse_x_of(t)), nametable_x_of(t))
}

/// `v` with the vertical scroll fields of `t`.
pub open spec fn loaded_y(v: u16, t: u16) -> u16 {
    with_fine_y(with_nametable_y(with_coarse_y(v, coarse_y_of(t)), nametable_y_of(t)), fine_y_of(t))
}

/// The ranges of the fields, and how the nametable bits make up the
/// nametable field.
pub proof fn lemma_fields(v: u16)
    by (bit_vector)
    ensures
        coarse_x_of(v) < 32,
        coarse_y_of(v) < 32,
        nametable_of(v) < 4,
        fine_y_of(v) < 8,
        nametable_of(v) == (if nametable_y_of(v) { 2u8 } else { 0u8 }) + (if nametable_x_of(v) { 1u8 } else { 0u8 }),
{
}

proof fn lemma_set_coarse_x(v: u16, x: u8)
    by (bit_vector)
    ensures
        ({
            let w = (v & !0x1fu16) | ((x as u16) & 0x1f);
            &&& coarse_x_of(w) == x & 0x1f
            &&& coarse_y_of(w) == coarse_y_of(v)
            &&& nametable_x_of(w) == nametable_x_of(v)
            &&& nametable_y_of(w) == nametable_y_of(v)
            &&& fine_y_of(w) == fine_y_of(v)
            &&& top_of(w) == top_of(v)
        }),
        x < 32 ==> x & 0x1f == x,
{
}

proof fn lemma_set_coarse_y(v: u16, x: u8)
    by (bit_vector)
    ensures
        ({
            let w = (v & !0x3e0u16) | (((x as u16) & 0x1f) << 5u16);
            &&& coarse_y_of(w) == x & 0x1f
            &&& coarse_x_of(w) == coarse_x_of(v)
            &&& nametable_x_of(w) == nametable_x_of(v)
            &&& nametable_y_of(w) == nametable_y_of(v)
            &&& fine_y_of(w) == fine_y_of(v)
            &&& top_of(w) == top_of(v)
        }),
        x < 32 ==> x & 0x1f == x,
{
}

proof fn lemma_set_nametable(v: u16, x: u8)
    by (bit_vector)
    ensures
        ({
            let w = (v & !0xc00u16) | (((x as u16) & 0x3) << 10u16);
            &&& nametable_of(w) == x & 0x3
            &&& nametable_x_of(w) == ((x & 1) == 1)
            &&& nametable_y_of(w) == ((x & 2) == 2)
            &&& coarse_x_of(w) == coarse_x_of(v)
            &&& coarse_y_of(w) == coarse_y_of(v)
            &&& fine_y_of(w) == fine_y_of(v)
            &&& top_of(w) == top_of(v)
        }),
{
}

proof fn lemma_set_fine_y(v: u16, x: u8)
    by (bit_vector)
    ensures
        ({
            let w = (v & !0x7000u16) | (((x as u16) & 0x7) << 12u16);
            &&& fine_y_of(w) == x & 0x7
            &&& coarse_x_of(w) == coarse_x_of(v)
            &&& coarse_y_of(w) == coarse_y_of(v)
            &&& nametable_x_of(w) == nametable_x_of(v)
            &&& nametable_y_of(w) == nametable_y_of(v)
            &&& top_of(w) == top_of(v)
        }),
        x < 8 ==> x & 0x7 == x,
{
}

proof fn lemma_set_nametable_x(v: u16, b: bool)
    by (bit_vector)
    ensures
        ({
            let w = if b { v | 0x400u16 } else { v & !0x400u16 };
            &&& nametable_x_of(w) == b
            &&& coarse_x_of(w) == coarse_x_of(v)
            &&& coarse_y_of(w) == coarse_y_of(v)
            &&& nametable_y_of(w) == nametable_y_of(v)
            &&& fine_y_of(w) == fine_y_of(v)
            &&& top_of(w) == top_of(v)
        }),
{
}

proof fn lemma_set_nametable_y(v: u16, b: bool)
    by (bit_vector)
    ensures
        ({
            let w = if b { v | 0x800u16 } else { v & !0x800u16 };
            &&& nametable_y_of(w) == b
            &&& coarse_x_of(w) == coarse_x_of(v)
            &&& coarse_y_of(w) == coarse_y_of(v)
            &&& nametable_x_of(w) == nametable_x_of(v)
            &&& fine_y_of(w) == fine_y_of(v)
            &&& top_of(w) == top_of(v)
        }),
{
}

/// Setting the nametable field puts the low two bits of `n` in bits 10-11
/// and keeps every other field.
pub proof fn lemma_with_nametable(v: u16, n: u8)
    ensures
        nametable_of(with_nametable(v, n)) == n % 4,
        nametable_x_of(with_nametable(v, n)) == (n % 2 == 1),
        nametable_y_of(with_nametable(v, n)) == ((n / 2) % 2 == 1),
        coarse_x_of(with_nametable(v, n)) == coarse_x_of(v),
        coarse_y_of(with_nametable(v, n)) == coarse_y_of(v),
        fine_y_of(with_nametable(v, n)) == fine_y_of(v),
        top_of(with_nametable(v, n)) == top_of(v),
{
    assert({
        let w = (v & !0xc00u16) | (((n as u16) & 0x3) << 10u16);
        &&& ((w >> 10u16) & 0x3) as u8 == n % 4
        &&& ((w >> 10u16) & 1 == 1) == (n % 2 == 1)
        &&& ((w >> 11u16) & 1 == 1) == ((n / 2) % 2 == 1)
        &&& (w & 0x1f) as u8 == (v & 0x1f) as u8
        &&& ((w >> 5u16) & 0x1f) as u8 == ((v >> 5u16) & 0x1f) as u8
        &&& ((w >> 12u16) & 0x7) as u8 == ((v >> 12u16) & 0x7) as u8
        &&& ((w >> 15u16) & 1 == 1) == ((v >> 15u16) & 1 == 1)
    }) by (bit_vector);
}

/// Setting the two nametable bits one by one from bits 0 and 1 of `d` puts
/// `d`'s low two bits in the nametable field and keeps every other field.
pub proof fn lemma_nametable_bits(v: u16, d: u8)
    ensures
        ({
            let w = with_nametable_y(with_nametable_x(v, d & 1 != 0), d & 2 != 0);
            &&& nametable_of(w) == d % 4
            &&& coarse_x_of(w) == coarse_x_of(v)
            &&& coarse_y_of(w) == coarse_y_of(v)
            &&& fine_y_of(w) == fine_y_of(v)
            &&& top_of(w) == top_of(v)
        }),
{
    let x = with_nametable_x(v, d & 1 != 0);
    lemma_set_nametable_x(v, d & 1 != 0);
    lemma_set_nametable_y(x, d & 2 != 0);
    let w = with_nametable_y(x, d & 2 != 0);
    lemma_fields(w);
    assert((d & 1 != 0) == (d % 2 == 1) && (d & 2 != 0) == ((d / 2) % 2 == 1)) by (bit_vector);
}

/// Addresses that agree on every field are the same address.
proof fn lemma_fields_determine(a: u16, b: u16)
    by (bit_vector)
    requires
        coarse_x_of(a) == coarse_x_of(b),
        coarse_y_of(a) == coarse_y_of(b),
        nametable_x_of(a) == nametable_x_of(b),
        nametable_y_of(a) == nametable_y_of(b),
        fine_y_of(a) == fine_y_of(b),
        top_of(a) == top_of(b),
    ensures
        a == b,
{
}

/// The fields of `v` with the horizontal or the vertical nametable bit
/// flipped.
proof fn lemma_flip_bits(v: u16)
    by (bit_vector)
    ensures
        coarse_x_of(v ^ 0x400) == coarse_x_of(v),
        coarse_y_of(v ^ 0x400) == coarse_y_of(v),
        nametable_x_of(v ^ 0x400) == !nametable_x_of(v),
        nametable_y_of(v ^ 0x400) == nametable_y_of(v),
        fine_y_of(v ^ 0x400) == fine_y_of(v),
        top_of(v ^ 0x400) == top_of(v),
        coarse_x_of(v ^ 0x800) == coarse_x_of(v),
        coarse_y_of(v ^ 0x800) == coarse_y_of(v),
        nametable_x_of(v ^ 0x800) == nametable_x_of(v),
        nametable_y_of(v ^ 0x800) == !nametable_y_of(v),
        fine_y_of(v ^ 0x800) == fine_y_of(v),
        top_of(v ^ 0x800) == top_of(v),
{
}

/// One move to the next tile column advances the tile position by one
/// around the 64 columns and keeps the other fields.
proof fn lemma_next_coarse_x(v: u16)
    ensures
        tile_x_of(next_coarse_x(v)) == (tile_x_of(v) + 1) % 64,
        same_y(next_coarse_x(v), v),
        top_of(next_coarse_x(v)) == top_of(v),
{
    lemma_fields(v);
    lemma_set_coarse_x(v, 0);
    lemma_set_coarse_x(v, (coarse_x_of(v) + 1) as u8);
    lemma_set_nametable_x(with_coarse_x(v, 0), !nametable_x_of(v));
}

/// `v` after `n` moves to the next tile column.
pub open spec fn coarse_x_steps(v: u16, n: nat) -> u16
    decreases n,
{
    if n == 0 {
        v
    } else {
        next_coarse_x(coarse_x_steps(v, (n - 1) as nat))
    }
}

/// Moving to the next tile column runs around the 64 columns of the two
/// horizontal nametables: after `n` moves the tile position is the start
/// plus `n`, modulo 64, the vertical fields are kept, after 32 moves only
/// the horizontal nametable bit has flipped, and after 64 moves the address
/// is back where it started.
pub proof fn lemma_coarse_x_steps(v: u16, n: nat)
    ensures
        tile_x_of(coarse_x_steps(v, n)) == (tile_x_of(v) + n) % 64,
        same_y(coarse_x_steps(v, n), v),
        top_of(coarse_x_steps(v, n)) == top_of(v),
        n == 32 ==> coarse_x_steps(v, n) == v ^ 0x400,
        n == 64 ==> coarse_x_steps(v, n) == v,
    decreases n,
{
    lemma_fields(v);
    if n > 0 {
        let m = (n - 1) as nat;
        lemma_coarse_x_steps(v, m);
        lemma_next_coarse_x(coarse_x_steps(v, m));
    }
    if n == 64 {
        let w = coarse_x_steps(v, n);
        lemma_fields(w);
        lemma_fields_determine(w, v);
    }
    if n == 32 {
        let w = coarse_x_steps(v, n);
        lemma_fields(w);
        lemma_flip_bits(v);
        lemma_fields(v ^ 0x400);
        lemma_fields_determine(w, v ^ 0x400);
    }
}

/// One move to the next pixel row, from a coarse Y scroll inside the
/// nametable, advances the pixel row by one around the 480 rows, stays
/// inside the nametable and keeps the other fields.
proof fn lemma_next_y(v: u16)
    requires
        coarse_y_of(v) < TILE_ROWS,
    ensures
        pixel_y_of(next_y(v)) == (pixel_y_of(v) + 1) % 480,
        coarse_y_of(next_y(v)) < TILE_ROWS,
        same_x(next_y(v), v),
        top_of(next_y(v)) == top_of(v),
{
    lemma_fields(v);
    lemma_set_fine_y(v, (fine_y_of(v) + 1) as u8);
    lemma_set_fine_y(v, 0);
    let f = with_fine_y(v, 0);
    lemma_set_coarse_y(f, 0);
    lemma_set_coarse_y(f, (coarse_y_of(v) + 1) as u8);
    lemma_set_nametable_y(with_coarse_y(f, 0), !nametable_y_of(v));
}

/// `v` after `n` moves to the next pixel row.
pub open spec fn y_steps(v: u16, n: nat) -> u16
    decreases n,
{
    if n == 0 {
        v
    } else {
        next_y(y_steps(v, (n - 1) as nat))
    }
}

/// Moving to the next pixel row, from a coarse Y scroll inside the
/// nametable, runs around the 480 rows of the two vertical nametables:
/// after `n` moves the pixel row is the start plus `n`, modulo 480, the
/// horizontal fields are kept, after 240 moves only the vertical nametable
/// bit has flipped, and after 480 moves the address is back where it
/// started.
pub proof fn lemma_y_steps(v: u16, n: nat)
    requires
        coarse_y_of(v) < TILE_ROWS,
    ensures
        pixel_y_of(y_steps(v, n)) == (pixel_y_of(v) + n) % 480,
        coarse_y_of(y_steps(v, n)) < TILE_ROWS,
        same_x(y_steps(v, n), v),
        top_of(y_steps(v, n)) == top_of(v),
        n == 240 ==> y_steps(v, n) == v ^ 0x800,
        n == 480 ==> y_steps(v, n) == v,
    decreases n,
{
    lemma_fields(v);
    if n > 0 {
        let m = (n - 1) as nat;
        lemma_y_steps(v, m);
        lemma_next_y(y_steps(v, m));
        vstd::arithmetic::div_mod::lemma_add_mod_noop(pixel_y_of(v) + m, 1, 480);
        assert(1int % 480 == 1);
    }
    if n == 480 {
        let w = y_steps(v, n);
        assert(pixel_y_of(v) < 480);
        vstd::arithmetic::div_mod::lemma_mod_add_multiples_vanish(pixel_y_of(v), 480);
        vstd::arithmetic::div_mod::lemma_small_mod(pixel_y_of(v) as nat, 480);
        lemma_pixel_y_determines(w, v);
        lemma_fields_determine(w, v);
    }
    if n == 240 {
        let w = y_steps(v, n);
        let f = v ^ 0x800;
        lemma_flip_bits(v);
        lemma_fields(f);
        assert(pixel_y_of(v) < 480);
        assert(pixel_y_of(f) == (pixel_y_of(v) + 240) % 480);
        lemma_pixel_y_determines(w, f);
        lemma_fields_determine(w, f);
    }
}

/// Inside the nametables, the pixel row determines the vertical fields.
proof fn lemma_pixel_y_determines(a: u16, b: u16)
    requires
        coarse_y_of(a) < TILE_ROWS,
        coarse_y_of(b) < TILE_ROWS,
        pixel_y_of(a) == pixel_y_of(b),
    ensures
        same_y(a, b),
{
    lemma_fields(a);
    lemma_fields(b);
    assert(nametable_y_of(a) == nametable_y_of(b));
    assert(coarse_y_of(a) == coarse_y_of(b));
}

/// The VRAM address register.
#[derive(Clone, Copy)]
pub struct Address(pub u16);

impl Address {
    /// The coarse X scroll.
    pub fn coarse_x_scroll(&self) -> (r: u8)
        ensures
            r == coarse_x_of(self.0),
            r < 32,
    {
        proof {
            lemma_fields(self.0);
        }
        (self.0 & 0x1f) as u8
    }

    /// The coarse Y scroll.
    pub fn coarse_y_scroll(&self) -> (r: u8)
        ensures
            r == coarse_y_of(self.0),
            r < 32,
    {
        proof {
            lemma_fields(self.0);
        }
        ((self.0 >> 5u16) & 0x1f) as u8
    }

    /// The nametable select bits.
    pub fn nametable(&self) -> (r: u8)
        ensures
            r == nametable_of(self.0),
            r < 4,
    {
        proof {
            lemma_fields(self.0);
        }
        ((self.0 >> 10u16) & 0x3) as u8
    }

    /// The fine Y scroll.
    pub fn fine_y_scroll(&self) -> (r: u8)
        ensures
            r == fine_y_of(self.0),
            r < 8,
    {
        proof {
            lemma_fields(self.0);
        }
        ((self.0 >> 12u16) & 0x7) as u8
    }

    /// The horizontal nametable select bit.
    pub fn nametable_x(&self) -> (r: bool)
        ensures
            r == nametable_x_of(self.0),
    {
        (self.0 >> 10u16) & 1 == 1
    }

    /// The vertical nametable select bit.
    pub fn nametable_y(&self) -> (r: bool)
        ensures
            r == nametable_y_of(self.0),
    {
        (self.0 >> 11u16) & 1 == 1
    }

    /// Sets the coarse X scroll to the low five bits of `x`.
    pub fn set_coarse_x_scroll(&mut self, x: u8)
        ensures
            final(self).0 == with_coarse_x(old(self).0, x),
            coarse_x_of(final(self).0) == x & 0x1f,
            x < 32 ==> coarse_x_of(final(self).0) == x,
            same_y(final(self).0, old(self).0),
            nametable_x_of(final(self).0) == nametable_x_of(old(self).0),
            top_of(final(self).0) == top_of(old(self).0),
    {
        proof {
            lemma_set_coarse_x(self.0, x);
        }
        self.0 = (self.0 & !0x1fu16) | ((x as u16) & 0x1f);
    }

    /// Sets the coarse Y scroll to the low five bits of `y`.
    pub fn set_coarse_y_scroll(&mut self, y: u8)
        ensures
            final(self).0 == with_coarse_y(old(self).0, y),
            coarse_y_of(final(self).0) == y & 0x1f,
            y < 32 ==> coarse_y_of(final(self).0) == y,
            same_x(final(self).0, old(self).0),
            fine_y_of(final(self).0) == fine_y_of(old(self).0),
            nametable_y_of(final(self).0) == nametable_y_of(old(self).0),
            top_of(final(self).0) == top_of(old(self).0),
    {
        proof {
            lemma_set_coarse_y(self.0, y);
        }
        self.0 = (self.0 & !0x3e0u16) | (((y as u16) & 0x1f) << 5u16);
    }

    /// Sets the nametable select bits to the low two bits of `n`.
    pub fn set_nametable(&mut self, n: u8)
        ensures
            final(self).0 == with_nametable(old(self).0, n),
            nametable_of(final(self).0) == n & 0x3,
            nametable_x_of(final(self).0) == ((n & 1) == 1),
            nametable_y_of(final(self).0) == ((n & 2) == 2),
            coarse_x_of(final(self).0) == coarse_x_of(old(self).0),
            coarse_y_of(final(self).0) == coarse_y_of(old(self).0),
            fine_y_of(final(self).0) == fine_y_of(old(self).0),
            top_of(final(self).0) == top_of(old(self).0),
    {
        proof {
            lemma_set_nametable(self.0, n);
        }
        self.0 = (self.0 & !0xc00u16) | (((n as u16) & 0x3) << 10u16);
    }

    /// Sets the fine Y scroll to the low three bits of `y`.
    pub fn set_fine_y_scroll(&mut self, y: u8)
        ensures
            final(self).0 == with_fine_y(old(self).0, y),
            fine_y_of(final(self).0) == y & 0x7,
            y < 8 ==> fine_y_of(final(self).0) == y,
            same_x(final(self).0, old(self).0),
            coarse_y_of(final(self).0) == coarse_y_of(old(self).0),
            nametable_y_of(final(self).0) == nametable_y_of(old(self).0),
            top_of(final(self).0) == top_of(old(self).0),
    {
        proof {
            lemma_set_fine_y(self.0, y);
        }
        self.0 = (self.0 & !0x7000u16) | (((y as u16) & 0x7) << 12u16);
    }

    /// Sets the horizontal nametable select bit.
    pub fn set_nametable_x(&mut self, b: bool)
        ensures
            final(self).0 == with_nametable_x(old(self).0, b),
            nametable_x_of(final(self).0) == b,
            coarse_x_of(final(self).0) == coarse_x_of(old(self).0),
            same_y(final(self).0, old(self).0),
            top_of(final(self).0) == top_of(old(self).0),
    {
        proof {
            lemma_set_nametable_x(self.0, b);
        }
        self.0 = if b { self.0 | 0x400u16 } else { self.0 & !0x400u16 };
    }

    /// Sets the vertical nametable select bit.
    pub fn set_nametable_y(&mut self, b: bool)
        ensures
            final(self).0 == with_nametable_y(old(self).0, b),
            nametable_y_of(final(self).0) == b,
            same_x(final(self).0, old(self).0),
            coarse_y_of(final(self).0) == coarse_y_of(old(self).0),
            fine_y_of(final(self).0) == fine_y_of(old(self).0),
            top_of(final(self).0) == top_of(old(self).0),
    {
        proof {
            lemma_set_nametable_y(self.0, b);
        }
        self.0 = if b { self.0 | 0x800u16 } else { self.0 & !0x800u16 };
    }

    /// Sets the low byte of the address.
    pub fn set_low(&mut self, low: u8)
        ensures
            final(self).0 == (old(self).0 & 0xff00) | (low as u16),
    {
        self.0 = (self.0 & 0xff00) | (low as u16);
    }

    /// Sets bits 8 to 13 of the address to the low six bits of `high`.
    pub fn set_high(&mut self, high: u8)
        ensures
            final(self).0 == (old(self).0 & !0x3f00u16) | (((high as u16) & 0x3f) << 8u16),
    {
        self.0 = (self.0 & !0x3f00u16) | (((high as u16) & 0x3f) << 8u16);
    }

    /// Moves to the next tile column, wrapping from the last column of one
    /// horizontal nametable to the first column of the other.
    pub fn increment_coarse_x_scroll(&mut self)
        ensures
            final(self).0 == next_coarse_x(old(self).0),
            coarse_x_of(old(self).0) == TILE_COLUMNS - 1 ==> {
                &&& coarse_x_of(final(self).0) == 0
                &&& nametable_x_of(final(self).0) == !nametable_x_of(old(self).0)
            },
            coarse_x_of(old(self).0) != TILE_COLUMNS - 1 ==> {
                &&& coarse_x_of(final(self).0) == coarse_x_of(old(self).0) + 1
                &&& nametable_x_of(final(self).0) == nametable_x_of(old(self).0)
            },
            tile_x_of(final(self).0) == (tile_x_of(old(self).0) + 1) % 64,
            same_y(final(self).0, old(self).0),
            top_of(final(self).0) == top_of(old(self).0),
    {
        proof {
            lemma_fields(self.0);
        }
        // The last column switches to the other horizontal nametable.
        if self.coarse_x_scroll() == TILE_COLUMNS - 1 {
            self.set_coarse_x_scroll(0);
            let flipped = !self.nametable_x();
            self.set_nametable_x(flipped);
        } else {
            let next = self.coarse_x_scroll() + 1;
            self.set_coarse_x_scroll(next);
        }
    }

    /// Moves to the next pixel row, wrapping from the last tile row of one
    /// vertical nametable to the first row of the other. A coarse Y scroll
    /// of 30 or 31 points into the attribute table; from 31 it wraps to 0
    /// without switching nametables.
    pub fn increment_y_scroll(&mut self)
        ensures
            final(self).0 == next_y(old(self).0),
            fine_y_of(old(self).0) < TILE_HEIGHT - 1 ==> {
                &&& fine_y_of(final(self).0) == fine_y_of(old(self).0) + 1
                &&& coarse_y_of(final(self).0) == coarse_y_of(old(self).0)
                &&& nametable_y_of(final(self).0) == nametable_y_of(old(self).0)
            },
            fine_y_of(old(self).0) == TILE_HEIGHT - 1 ==> {
                &&& fine_y_of(final(self).0) == 0
                &&& coarse_y_of(old(self).0) == TILE_ROWS - 1 ==> {
                    &&& coarse_y_of(final(self).0) == 0
                    &&& nametable_y_of(final(self).0) == !nametable_y_of(old(self).0)
                }
                &&& coarse_y_of(old(self).0) == 31 ==> {
                    &&& coarse_y_of(final(self).0) == 0
                    &&& nametable_y_of(final(self).0) == nametable_y_of(old(self).0)
                }
                &&& coarse_y_of(old(self).0) != TILE_ROWS - 1 && coarse_y_of(old(self).0) != 31 ==> {
                    &&& coarse_y_of(final(self).0) == coarse_y_of(old(self).0) + 1
                    &&& nametable_y_of(final(self).0) == nametable_y_of(old(self).0)
                }
            },
            coarse_y_of(old(self).0) < TILE_ROWS ==> pixel_y_of(final(self).0) == (pixel_y_of(old(self).0) + 1) % 480,
            same_x(final(self).0, old(self).0),
            top_of(final(self).0) == top_of(old(self).0),
    {
        proof {
            lemma_fields(self.0);
        }
        if self.fine_y_scroll() < TILE_HEIGHT - 1 {
            // Not yet at the last row of the tile.
            let next = self.fine_y_scroll() + 1;
            self.set_fine_y_scroll(next);
        } else {
            self.set_fine_y_scroll(0);

            if self.coarse_y_scroll() == TILE_ROWS - 1 {
                // The last row of tiles switches to the other vertical
                // nametable.
                self.set_coarse_y_scroll(0);
                let flipped = !self.nametable_y();
                self.set_nametable_y(flipped);
            } else if self.coarse_y_scroll() == 31 {
                // Past the attribute table the row wraps to 0 in the same
                // nametable.
                self.set_coarse_y_scroll(0);
            } else {
                let next = self.coarse_y_scroll() + 1;
                self.set_coarse_y_scroll(next);
            }
        }
    }

    /// Copies the horizontal scroll fields of `other`.
    pub fn load_x_scroll(&mut self, other: &Address)
        ensures
            final(self).0 == loaded_x(old(self).0, other.0),
            same_x(final(self).0, other.0),
            same_y(final(self).0, old(self).0),
            top_of(final(self).0) == top_of(old(self).0),
    {
        let x = other.coarse_x_scroll();
        self.set_coarse_x_scroll(x);
        let b = other.nametable_x();
        self.set_nametable_x(b);
    }

    /// Copies the vertical scroll fields of `other`.
    pub fn load_y_scroll(&mut self, other: &Address)
        ensures
            final(self).0 == loaded_y(old(self).0, other.0),
            same_y(final(self).0, other.0),
            same_x(final(self).0, old(self).0),
            top_of(final(self).0) == top_of(old(self).0),
    {
        let y = other.coarse_y_scroll();
        self.set_coarse_y_scroll(y);
        let b = other.nametable_y();
        self.set_nametable_y(b);
        let f = other.fine_y_scroll();
        self.set_fine_y_scroll(f);
    }

    /// Advances the address by 32 (one tile row) when `increment_mode` is
    /// set and by 1 otherwise.
    pub fn increment(&mut self, increment_mode: bool)
        requires
            old(self).0 + (if increment_mode { 32int } else { 1int }) <= u16::MAX,
        ensures
            final(self).0 == old(self).0 + if increment_mode { 32int } else { 1int },
    {
        self.0 = self.0 + if increment_mode { 32 } else { 1 };
    }
}

} // verus!
