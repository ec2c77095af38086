use dunes::cartridge::NromCartridge;
use dunes::ppu::address::Address;
use dunes::ppu::Ppu;

fn cartridge(flags6: u8) -> NromCartridge {
    let mut rom = vec![0x4e, 0x45, 0x53, 0x1a, 1, 1, flags6, 0, 0, 0, 0, 0, 0, 0, 0, 0];
    for i in 0..(0x4000 + 0x2000) {
        rom.push((i % 251) as u8);
    }
    NromCartridge::new(&rom)
}

#[test]
fn coarse_x_wraps_into_the_other_nametable() {
    let mut a = Address(0x001f);
    a.increment_coarse_x_scroll();
    assert_eq!(a.0, 0x0400);
    a.increment_coarse_x_scroll();
    assert_eq!(a.0, 0x0401);
    let mut b = Address(0x041f);
    b.increment_coarse_x_scroll();
    assert_eq!(b.0, 0x0000);
}

#[test]
fn sixty_four_coarse_x_steps_come_back() {
    let mut a = Address(0x7345);
    for _ in 0..64 {
        a.increment_coarse_x_scroll();
    }
    assert_eq!(a.0, 0x7345);
}

#[test]
fn y_scroll_steps() {
    // Fine Y advances first.
    let mut a = Address(0x0000);
    a.increment_y_scroll();
    assert_eq!(a.fine_y_scroll(), 1);
    // Row 29, fine 7 wraps to row 0 of the other vertical nametable.
    let mut b = Address(0x7000 | (29 << 5));
    b.increment_y_scroll();
    assert_eq!(b.0, 0x0800);
    // Row 31, fine 7 wraps to row 0 of the same nametable.
    let mut c = Address(0x7000 | (31 << 5));
    c.increment_y_scroll();
    assert_eq!(c.0, 0x0000);
    // Row 30 is in the attribute table and steps to 31.
    let mut d = Address(0x7000 | (30 << 5));
    d.increment_y_scroll();
    assert_eq!(d.coarse_y_scroll(), 31);
}

#[test]
fn four_hundred_eighty_y_steps_come_back() {
    let mut a = Address(0x0123 & !0x0800);
    let start = a.0;
    for _ in 0..480 {
        a.increment_y_scroll();
    }
    assert_eq!(a.0, start);
}

#[test]
fn load_scroll_fields() {
    let mut v = Address(0x0000);
    let t = Address(0x7fff);
    v.load_x_scroll(&t);
    assert_eq!(v.0, 0x041f);
    v.load_y_scroll(&t);
    assert_eq!(v.0, 0x7fff);
}

#[test]
fn address_increment() {
    let mut a = Address(0x2000);
    a.increment(false);
    assert_eq!(a.0, 0x2001);
    a.increment(true);
    assert_eq!(a.0, 0x2021);
}

#[test]
fn address_fields() {
    let mut a = Address(0);
    a.set_coarse_x_scroll(0x15);
    a.set_coarse_y_scroll(0x0a);
    a.set_nametable(3);
    a.set_fine_y_scroll(5);
    assert_eq!(a.0, 0x15 | (0x0a << 5) | (3 << 10) | (5 << 12));
    assert_eq!(a.coarse_x_scroll(), 0x15);
    assert_eq!(a.coarse_y_scroll(), 0x0a);
    assert_eq!(a.nametable(), 3);
    assert!(a.nametable_x() && a.nametable_y());
    assert_eq!(a.fine_y_scroll(), 5);
    a.set_high(0xff);
    assert_eq!(a.0 & 0x3f00, 0x3f00);
    a.set_low(0x12);
    assert_eq!(a.0 & 0xff, 0x12);
}

#[test]
fn ppuaddr_then_ppudata_writes_vram() {
    let mut ppu = Ppu::new(cartridge(0));
    ppu.write_register(0x2006, 0x21);
    ppu.write_register(0x2006, 0x08);
    assert_eq!(ppu.v.0, 0x2108);
    ppu.write_register(0x2007, 0x55);
    assert_eq!(ppu.v.0, 0x2109);
    assert_eq!(ppu.read_data(0x2108), 0x55);
    assert_eq!(ppu.nametables[0x108], 0x55);
}

#[test]
fn horizontal_mirroring_folds_nametables() {
    let mut ppu = Ppu::new(cartridge(0));
    ppu.write_register(0x2006, 0x24);
    ppu.write_register(0x2006, 0x05);
    ppu.write_register(0x2007, 0x11);
    // 0x2405 shares its byte with 0x2005.
    assert_eq!(ppu.read_data(0x2005), 0x11);
    ppu.write_register(0x2006, 0x2c);
    ppu.write_register(0x2006, 0x05);
    ppu.write_register(0x2007, 0x22);
    assert_eq!(ppu.read_data(0x2805), 0x22);
    assert_eq!(ppu.nametables[0x405], 0x22);
}

#[test]
fn vertical_mirroring_folds_nametables() {
    let mut ppu = Ppu::new(cartridge(1));
    ppu.write_register(0x2006, 0x28);
    ppu.write_register(0x2006, 0x05);
    ppu.write_register(0x2007, 0x33);
    assert_eq!(ppu.read_data(0x2005), 0x33);
    assert_eq!(ppu.read_data(0x2405), 0);
}

#[test]
fn palette_mirrors() {
    let mut ppu = Ppu::new(cartridge(0));
    ppu.write_register(0x2006, 0x3f);
    ppu.write_register(0x2006, 0x10);
    ppu.write_register(0x2007, 0x2a);
    assert_eq!(ppu.read_data(0x3f00), 0x2a);
    assert_eq!(ppu.read_data(0x3f20), 0x2a);
    assert_eq!(ppu.palettes[0], 0x2a);
}

#[test]
fn ppudata_increment_mode() {
    let mut ppu = Ppu::new(cartridge(0));
    ppu.write_register(0x2000, 0x04);
    ppu.write_register(0x2006, 0x20);
    ppu.write_register(0x2006, 0x00);
    ppu.write_register(0x2007, 1);
    ppu.write_register(0x2007, 2);
    assert_eq!(ppu.read_data(0x2000), 1);
    assert_eq!(ppu.read_data(0x2020), 2);
    assert_eq!(ppu.v.0, 0x2040);
}

#[test]
fn ppudata_read_is_buffered() {
    let mut ppu = Ppu::new(cartridge(0));
    // The buffer is refilled from the byte that 0x2007 names.
    ppu.write_register(0x2006, 0x20);
    ppu.write_register(0x2006, 0x07);
    ppu.write_register(0x2007, 0xab);
    assert_eq!(ppu.read_register(0x2007), 0);
    assert_eq!(ppu.read_register(0x2007), 0xab);
}

#[test]
fn ppustatus_read_clears_vblank_and_toggle() {
    let mut ppu = Ppu::new(cartridge(0));
    ppu.status.set_vblank(true);
    ppu.write_register(0x2005, 0x7d);
    assert!(ppu.w);
    assert_eq!(ppu.fine_x_scroll, 5);
    assert_eq!(ppu.t.coarse_x_scroll(), 0x0f);
    let status = ppu.read_register(0x2002);
    assert_eq!(status & 0x80, 0x80);
    assert!(!ppu.status.vblank());
    assert!(!ppu.w);
}

#[test]
fn ppuscroll_second_write_sets_y() {
    let mut ppu = Ppu::new(cartridge(0));
    ppu.write_register(0x2005, 0x00);
    ppu.write_register(0x2005, 0x5e);
    assert_eq!(ppu.t.fine_y_scroll(), 6);
    assert_eq!(ppu.t.coarse_y_scroll(), 0x0b);
    assert!(!ppu.w);
}

#[test]
fn frame_timing_and_vblank() {
    let mut ppu = Ppu::new(cartridge(0));
    ppu.write_register(0x2000, 0x80);
    // Up to dot 1 of scanline 241 nothing has happened.
    for _ in 0..(241 * 341 + 1) {
        ppu.tick();
    }
    assert!(!ppu.nmi);
    assert!(!ppu.status.vblank());
    ppu.tick();
    assert!(ppu.nmi);
    assert!(ppu.status.vblank());
    // The pre-render scanline begins, handing over the frame.
    while ppu.scanline != 261 {
        ppu.tick();
    }
    assert!(ppu.is_frame_ready);
    ppu.tick();
    ppu.tick();
    assert!(!ppu.status.vblank());
    assert!(!ppu.nmi);
    while ppu.scanline != 0 {
        ppu.tick();
    }
    assert_eq!(ppu.cycle, 0);
}

#[test]
fn rendering_draws_pixels_from_the_pattern_table() {
    // Every low plane byte is 0xff and every high plane byte 0: every
    // background pixel has value 1.
    let mut rom = vec![0x4e, 0x45, 0x53, 0x1a, 1, 1, 0, 0, 0, 0, 0, 0, 0, 0, 0, 0];
    rom.resize(16 + 0x4000, 0);
    for i in 0..0x2000 {
        rom.push(if i % 16 < 8 { 0xff } else { 0x00 });
    }
    let mut ppu = Ppu::new(NromCartridge::new(&rom));
    ppu.write_register(0x2001, 0x08);
    // Palette 0 is in use, and its colors are zero.
    for _ in 0..(341 * 262 + 341 * 2) {
        ppu.tick();
    }
    assert!(ppu.is_frame_ready);
    assert_eq!(ppu.scratch_frame[20], (1, 0));
    assert_eq!(ppu.scratch_frame[256 + 100], (1, 0));
}

#[test]
fn pattern_table_picture() {
    let ppu = Ppu::new(cartridge(0));
    let pixels = ppu.pattern_table_pixels();
    assert_eq!(pixels.len(), 128 * 256);
    // Tile 17 is the second tile of the second row of tiles.
    let low = ppu.read_data(17 * 16 + 3);
    let high = ppu.read_data(17 * 16 + 8 + 3);
    let (x, y) = (8 + 2, 8 + 3);
    let expected = (((high >> 5) & 1) << 1) | ((low >> 5) & 1);
    assert_eq!(pixels[y * 128 + x], expected);
}

#[test]
fn screen_color_indices() {
    let mut ppu = Ppu::new(cartridge(0));
    ppu.write_register(0x2006, 0x3f);
    ppu.write_register(0x2006, 0x06);
    ppu.write_register(0x2007, 0x16);
    ppu.frame[0] = (2, 1);
    assert_eq!(ppu.color_index(2, 1), 0x16);
    let indices = ppu.screen_color_indices();
    assert_eq!(indices.len(), 240 * 256);
    assert_eq!(indices[0], 0x16);
    assert_eq!(indices[1], 0);
}

#[test]
fn thirty_two_coarse_x_steps_flip_the_nametable() {
    for start in [0x0000u16, 0x7345, 0x841f] {
        let mut a = Address(start);
        for _ in 0..32 {
            a.increment_coarse_x_scroll();
        }
        assert_eq!(a.0, start ^ 0x0400);
    }
}

#[test]
fn two_hundred_forty_y_steps_flip_the_nametable() {
    // Coarse Y 3, fine Y 5, coarse X 7, top bit set.
    let start: u16 = 0x8000 | (5 << 12) | (3 << 5) | 7;
    let mut a = Address(start);
    for _ in 0..240 {
        a.increment_y_scroll();
    }
    assert_eq!(a.0, start ^ 0x0800);
}
