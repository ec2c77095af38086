//! A minimal NROM board: PRG ROM and 8 KiB of PRG RAM.
use vstd::prelude::*;

use crate::cartridge::{image_prg_rom, prg_rom_size, window_byte, INES_HEADER_SIZE};

verus! {

/// The size of an iNES header in bytes.
pub const HEADER_SIZE: u8 = 16;
/// The size of a PRG ROM bank in bytes.
pub const PRG_ROM_BANK_SIZE: u16 = 16384;
/// The size of PRG RAM in bytes.
pub const PRG_RAM_SIZE: u16 = 8192;

/// An NROM board.
pub struct Nrom {
    /// The PRG RAM.
    pub prg_ram: Vec<u8>,
    /// The PRG ROM.
    pub prg_rom: Vec<u8>,
}

impl Nrom {
    /// Builds the board from the iNES image `rom`. The PRG ROM size is
    /// computed in 16 bits, so the header may declare at most three banks.
    pub fn new(rom: &[u8]) -> (nrom: Nrom)
        requires
            rom@.len() >= HEADER_SIZE,
            rom@[4] * PRG_ROM_BANK_SIZE <= u16::MAX,
            INES_HEADER_SIZE + prg_rom_size(rom@) <= rom@.len(),
        ensures
            nrom.prg_ram@ == Seq::new(PRG_RAM_SIZE as nat, |i: int| 0u8),
            nrom.prg_rom@ == image_prg_rom(rom@),
    {
        let (header, rom) = rom.split_at(HEADER_SIZE as usize);
        let prg_rom_size: u16 = header[4] as u16 * PRG_ROM_BANK_SIZE;
        let prg_rom = vstd::slice::slice_to_vec(&rom[0..prg_rom_size as usize]);
        let prg_ram: Vec<u8> = vec![0; PRG_RAM_SIZE as usize];
        assert(prg_ram@ =~= Seq::new(PRG_RAM_SIZE as nat, |i: int| 0u8));
        Nrom { prg_ram, prg_rom }
    }
}

/// Reads the PRG RAM at CPU address `addr`.
pub fn read_prg_ram(nrom: &Nrom, addr: u16) -> (data: u8)
    requires
        0x6000 <= addr,
        addr - 0x6000 < nrom.prg_ram@.len(),
    ensures
        data == nrom.prg_ram@[addr - 0x6000],
{
    nrom.prg_ram[(addr - 0x6000) as usize]
}

/// Writes `data` to the PRG RAM at CPU address `addr`.
pub fn write_prg_ram(nrom: &mut Nrom, addr: u16, data: u8)
    requires
        0x6000 <= addr,
        addr - 0x6000 < old(nrom).prg_ram@.len(),
    ensures
        final(nrom).prg_ram@ == old(nrom).prg_ram@.update(addr - 0x6000, data),
        final(nrom).prg_rom == old(nrom).prg_rom,
{
    nrom.prg_ram.set((addr - 0x6000) as usize, data);
}

/// Reads the PRG ROM at CPU address `addr`; the ROM repeats through the
/// address space from 0x8000 up.
pub fn read_prg_rom(nrom: &Nrom, addr: u16) -> (data: u8)
    requires
        0x8000 <= addr,
        nrom.prg_rom@.len() > 0,
    ensures
        data == window_byte(nrom.prg_rom@, addr - 0x8000),
{
    nrom.prg_rom[(addr - 0x8000) as usize % nrom.prg_rom.len()]
}

/// Writes `data` into the PRG ROM at CPU address `addr`.
pub fn write_prg_rom(nrom: &mut Nrom, addr: u16, data: u8)
    requires
        0x8000 <= addr,
        old(nrom).prg_rom@.len() > 0,
    ensures
        final(nrom).prg_rom@ == old(nrom).prg_rom@.update(
            (addr - 0x8000) % (old(nrom).prg_rom@.len() as int),
            data,
        ),
        final(nrom).prg_ram == old(nrom).prg_ram,
{
    let index = (addr - 0x8000) as usize % nrom.prg_rom.len();
    nrom.prg_rom.set(index, data);
}

} // verus!
