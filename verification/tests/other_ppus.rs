use dunes::cartridge::NromCartridge;
use dunes::emu_ppu;
use dunes::mapper::Nrom;
use dunes::simple_ppu;

fn image(flags6: u8) -> Vec<u8> {
    let mut rom = vec![0x4e, 0x45, 0x53, 0x1a, 1, 1, flags6, 0, 0, 0, 0, 0, 0, 0, 0, 0];
    for i in 0..(0x4000 + 0x2000) {
        rom.push((i % 251) as u8);
    }
    rom
}

#[test]
fn simple_ppu_write_then_read() {
    let mut ppu = simple_ppu::Ppu::new(NromCartridge::new(&image(0)));
    assert!(ppu.latch);
    ppu.write_register(0x2006, 0x24);
    ppu.write_register(0x2006, 0x10);
    assert_eq!(ppu.address.0, 0x2410);
    ppu.write_register(0x2007, 0x66);
    assert_eq!(ppu.address.0, 0x2411);
    // Horizontal mirroring: 0x2410 shares its byte with 0x2010.
    assert_eq!(ppu.read(0x2010), 0x66);
    assert_eq!(ppu.read(0x2410), 0x66);
    assert_eq!(ppu.read(0x2810), 0);
}

#[test]
fn simple_ppu_pattern_writes_are_ignored() {
    let mut ppu = simple_ppu::Ppu::new(NromCartridge::new(&image(1)));
    let before = ppu.read(0x0005);
    ppu.write(0x0005, before.wrapping_add(1));
    assert_eq!(ppu.read(0x0005), before);
    // Vertical mirroring: 0x2805 shares its byte with 0x2005.
    ppu.write(0x2805, 0x12);
    assert_eq!(ppu.read(0x2005), 0x12);
    ppu.write(0x3f14, 0x21);
    assert_eq!(ppu.read(0x3f04), 0x21);
}

#[test]
fn simple_ppu_registers() {
    let mut ppu = simple_ppu::Ppu::new(NromCartridge::new(&image(0)));
    ppu.write_register(0x2000, 0x03);
    assert!(ppu.temp_address.nametable_x() && ppu.temp_address.nametable_y());
    ppu.write_register(0x2005, 0x2b);
    assert_eq!(ppu.fine_x_scroll, 3);
    assert_eq!(ppu.temp_address.coarse_x_scroll(), 5);
    assert!(!ppu.latch);
    ppu.status.set_vblank(true);
    let status = ppu.read_register(0x2002);
    assert_eq!(status & 0x80, 0x80);
    assert!(ppu.latch);
    assert!(!ppu.status.vblank());
}

#[test]
fn simple_ppu_frame_timing() {
    let mut ppu = simple_ppu::Ppu::new(NromCartridge::new(&image(0)));
    ppu.write_register(0x2000, 0x80);
    // The first dot of scanline 0 is skipped.
    ppu.tick();
    assert_eq!(ppu.cycle, 2);
    while !(ppu.scanline == 241 && ppu.cycle == 2) {
        ppu.tick();
    }
    assert!(ppu.nmi);
    assert!(ppu.status.vblank());
    while ppu.scanline != -1 {
        ppu.tick();
    }
    assert!(ppu.is_frame_done);
    assert_eq!(ppu.cycle, 0);
    ppu.tick();
    ppu.tick();
    assert!(!ppu.status.vblank());
}

#[test]
fn emu_ppu_palette_from_bytes() {
    let ppu = emu_ppu::Ppu::new(&[0x10, 0x20, 0x30, 0x40, 0x50, 0x60, 0x70]);
    assert_eq!(ppu.palette, vec![0xff302010, 0xff605040]);
    assert_eq!(ppu.buffer.len(), 256 * 240 * 4);
}

#[test]
fn emu_ppu_registers() {
    let mapper = Nrom::new(&image(0));
    let mut ppu = emu_ppu::Ppu::new(&[0; 192]);
    ppu.write_addr(0x2006, 0x23);
    ppu.write_addr(0x2006, 0x45);
    assert_eq!(ppu.v.0, 0x2345);
    assert_eq!(ppu.io_bus, 0x45);
    ppu.write_register(&mapper, 0x2007, 0x9c);
    assert_eq!(ppu.read_data(&mapper, 0x2345), 0x9c);
    ppu.write_ctrl(0x2000, 0x06);
    assert_eq!(ppu.t.nametable(), 2);
    ppu.write_oam_addr(0x2003, 0xff);
    ppu.write_oam_data(0x2004, 0x11);
    assert_eq!(ppu.oam_addr, 0);
    assert_eq!(ppu.primary_oam[0xff], 0x11);
    ppu.write_oam_addr(0x2003, 0xff);
    assert_eq!(ppu.read_oam_data(0x2004), 0x11);
    ppu.status.set_vblank(true);
    ppu.write_bus(0x2000, 0x1f);
    assert_eq!(ppu.read_status(0x2002), 0x9f);
    assert!(!ppu.status.vblank());
    assert_eq!(ppu.read_bus(0x2000), 0x9f);
    ppu.write_scroll(0x2005, 0x0f);
    assert_eq!(ppu.fine_x_scroll, 7);
    assert_eq!(ppu.t.coarse_x_scroll(), 1);
    ppu.write_mask(0x2001, 0x18);
    assert_eq!(ppu.mask.0, 0x18);
}

#[test]
fn emu_ppu_draws_rgba_and_marks_frames() {
    let mapper = Nrom::new(&image(0));
    let mut data = vec![0u8; 192];
    // Color 0 is pure red.
    data[0] = 0xff;
    let mut ppu = emu_ppu::Ppu::new(&data);
    let mut nmi = false;
    ppu.write_ctrl(0x2000, 0x80);
    ppu.write_mask(0x2001, 0x08);
    for _ in 0..(241 * 341 + 2) {
        ppu.tick(&mapper, &mut nmi);
    }
    assert!(nmi);
    assert!(!ppu.frame_ready);
    while ppu.scanline != 261 {
        ppu.tick(&mapper, &mut nmi);
    }
    assert!(ppu.frame_ready);
    // Palette memory is all zero, so every drawn pixel is color 0.
    assert_eq!(&ppu.buffer[0..4], &[0xff, 0, 0, 0xff]);
    ppu.tick(&mapper, &mut nmi);
    ppu.tick(&mapper, &mut nmi);
    assert!(!nmi);
}

#[test]
fn emu_ppu_tick_safety() {
    let mapper = Nrom::new(&image(0));
    let mut data = vec![0u8; 6];
    data[0] = 1;
    // A palette of two colors: palette memory value 2 has no color.
    let mut ppu = emu_ppu::Ppu::new(&data);
    assert!(ppu.tick_safe(&mapper));
    ppu.write_mask(0x2001, 0x08);
    ppu.write_addr(0x2006, 0x3f);
    ppu.write_addr(0x2006, 0x00);
    ppu.write_register(&mapper, 0x2007, 2);
    assert!(!ppu.tick_safe(&mapper));
}
