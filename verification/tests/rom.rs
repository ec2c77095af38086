use dunes::cartridge::{Mirroring, NromCartridge};
use dunes::header::INesHeader;
use dunes::{mapper, nrom};

/// An iNES image with the given header bytes 4 to 8, whose ROM bytes count
/// up modulo 251.
fn image(prg_banks: u8, chr_banks: u8, flags6: u8, flags7: u8, ram_banks: u8) -> Vec<u8> {
    let mut rom = vec![
        0x4e, 0x45, 0x53, 0x1a, prg_banks, chr_banks, flags6, flags7, ram_banks, 0, 0, 0, 0, 0, 0, 0,
    ];
    for i in 0..(prg_banks as usize * 0x4000 + chr_banks as usize * 0x2000) {
        rom.push((i % 251) as u8);
    }
    rom
}

#[test]
fn cartridge_new_reads_the_header() {
    let cart = NromCartridge::new(&image(1, 1, 1, 0, 0));
    assert_eq!(cart.prg_ram.len(), 0x2000);
    assert_eq!(cart.prg_rom.len(), 0x4000);
    assert_eq!(cart.chr_rom.len(), 0x2000);
    assert_eq!(cart._mirroring(), Mirroring::Vertical);
    assert_eq!(cart.prg_rom[0], 0);
    assert_eq!(cart.prg_rom[300], (300 % 251) as u8);
    assert_eq!(cart.chr_rom[0], (0x4000 % 251) as u8);
    assert!(cart.prg_ram.iter().all(|&b| b == 0));
}

#[test]
fn cartridge_ram_banks_and_horizontal_mirroring() {
    let cart = NromCartridge::new(&image(2, 0, 0, 0, 3));
    assert_eq!(cart.prg_ram.len(), 3 * 0x2000);
    assert_eq!(cart.prg_rom.len(), 0x8000);
    assert_eq!(cart.chr_rom.len(), 0);
    assert_eq!(cart._mirroring(), Mirroring::Horizontal);
}

#[test]
fn cartridge_prg_rom_repeats_through_the_window() {
    let cart = NromCartridge::new(&image(1, 1, 0, 0, 0));
    assert_eq!(cart.read_prg(0x8000), 0);
    assert_eq!(cart.read_prg(0x8005), 5);
    // A 16 KiB ROM shows again at 0xC000.
    assert_eq!(cart.read_prg(0xc005), 5);
    assert_eq!(cart.read_prg(0xffff), cart.prg_rom[0x3fff]);
    // Below PRG RAM nothing answers.
    assert_eq!(cart.read_prg(0x5000), 0);
}

#[test]
fn cartridge_prg_ram_write_then_read() {
    let mut cart = NromCartridge::new(&image(1, 1, 0, 0, 0));
    cart.write_prg(0x6123, 0xab);
    assert_eq!(cart.read_prg(0x6123), 0xab);
    assert_eq!(cart.prg_ram[0x123], 0xab);
    assert_eq!(cart.read_prg(0x6124), 0);
}

#[test]
fn cartridge_read_chr() {
    let cart = NromCartridge::new(&image(1, 1, 0, 0, 0));
    assert_eq!(cart._read_chr(0x0010), ((0x4000 + 0x10) % 251) as u8);
}

#[test]
fn header_fields() {
    let h = INesHeader::new(&image(2, 1, 0x11, 0x20, 0));
    assert_eq!(h.prg_rom_banks, 2);
    assert_eq!(h.chr_rom_banks, 1);
    assert!(h.mirroring == Mirroring::Vertical);
    assert_eq!(h.mapper, 0x21);
    assert_eq!(h.prg_ram_banks, 1);
    let h = INesHeader::new(&image(1, 1, 0, 0, 4));
    assert!(h.mirroring == Mirroring::Horizontal);
    assert_eq!(h.prg_ram_banks, 4);
}

#[test]
fn mapper_new_and_memory() {
    let mut m = mapper::Nrom::new(&image(1, 1, 1, 0, 0));
    assert_eq!(m.prg_ram.len(), 0x2000);
    assert_eq!(m.prg_rom.len(), 0x4000);
    assert_eq!(m.chr_rom.len(), 0x2000);
    assert!(*m.mirroring() == Mirroring::Vertical);
    assert_eq!(m.read_chr(3), ((0x4000 + 3) % 251) as u8);
    mapper::write_prg_ram(&mut m, 0x6001, 9);
    assert_eq!(mapper::read_prg_ram(&m, 0x6001), 9);
    // PRG RAM repeats every 8 KiB.
    assert_eq!(mapper::read_prg_ram(&m, 0x8001), 9);
    assert_eq!(mapper::read_prg_rom(&m, 0xc007), 7);
    mapper::write_prg_rom(&mut m, 0x8000, 0xff);
    assert_eq!(mapper::read_prg_rom(&m, 0x8000), 0);
}

#[test]
fn nrom_new_and_memory() {
    let mut n = nrom::Nrom::new(&image(1, 0, 0, 0, 0));
    assert_eq!(n.prg_ram.len(), 8192);
    assert_eq!(n.prg_rom.len(), 16384);
    nrom::write_prg_ram(&mut n, 0x7fff, 0x5a);
    assert_eq!(nrom::read_prg_ram(&n, 0x7fff), 0x5a);
    assert_eq!(nrom::read_prg_rom(&n, 0xc002), 2);
    // A write to PRG ROM stores the byte.
    nrom::write_prg_rom(&mut n, 0xc002, 0x77);
    assert_eq!(nrom::read_prg_rom(&n, 0x8002), 0x77);
}
