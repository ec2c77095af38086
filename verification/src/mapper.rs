//! An NROM mapper with CHR ROM and nametable mirroring, and the CPU's view
//! of its PRG memory.
use vstd::prelude::*;

use crate::bit::BitPos;
pub use crate::cartridge::Mirroring;
use crate::cartridge::{
    chr_rom_size, header_mirroring, image_chr_rom, image_prg_rom, prg_ram_size, prg_rom_size, window_byte,
    CHR_ROM_BANK_SIZE, INES_HEADER_SIZE, PRG_RAM_BANK_SIZE, PRG_ROM_BANK_SIZE,
};
use crate::header::has_ines_magic;

verus! {

/// `rom` is an iNES image, with the magic number, that holds at least the
/// PRG ROM and CHR ROM that its header declares.
pub open spec fn is_ines_image(rom: Seq<u8>) -> bool {
    &&& rom.len() >= INES_HEADER_SIZE
    &&& has_ines_magic(rom)
    &&& INES_HEADER_SIZE + prg_rom_size(rom) + chr_rom_size(rom) <= rom.len()
}

/// An NROM mapper.
pub struct Nrom {
    /// The PRG RAM.
    pub prg_ram: Vec<u8>,
    /// The PRG ROM.
    pub prg_rom: Vec<u8>,
    /// The CHR ROM.
    pub chr_rom: Vec<u8>,
    /// The nametable mirroring.
    pub mirroring: Mirroring,
}

impl Nrom {
    /// Builds the mapper that the iNES image `rom` describes.
    pub fn new(rom: &[u8]) -> (nrom: Nrom)
        requires
            is_ines_image(rom@),
        ensures
            nrom.prg_ram@ == Seq::new(prg_ram_size(rom@) as nat, |i: int| 0u8),
            nrom.prg_rom@ == image_prg_rom(rom@),
            nrom.chr_rom@ == image_chr_rom(rom@),
            nrom.mirroring == header_mirroring(rom@),
    {
        let (header, data) = rom.split_at(INES_HEADER_SIZE);

        let prg_rom_banks: u8 = header[4];
        let chr_rom_banks: u8 = header[5];
        let mirroring = if header[6].lsb() {
            Mirroring::Vertical
        } else {
            Mirroring::Horizontal
        };
        let prg_ram_banks: u8 = if header[8] == 0 { 1 } else { header[8] };

        let prg_ram_size: usize = prg_ram_banks as usize * PRG_RAM_BANK_SIZE;
        let prg_rom_size: usize = prg_rom_banks as usize * PRG_ROM_BANK_SIZE;
        let chr_rom_size: usize = chr_rom_banks as usize * CHR_ROM_BANK_SIZE;

        let prg_rom = vstd::slice::slice_to_vec(&data[0..prg_rom_size]);
        let chr_rom = vstd::slice::slice_to_vec(&data[prg_rom_size..prg_rom_size + chr_rom_size]);
        assert(prg_rom@ =~= image_prg_rom(rom@));
        assert(chr_rom@ =~= image_chr_rom(rom@));
        let prg_ram: Vec<u8> = vec![0; prg_ram_size];
        assert(prg_ram@ =~= Seq::new(prg_ram_size as nat, |i: int| 0u8));
        Nrom { prg_ram, prg_rom, chr_rom, mirroring }
    }

    /// Reads the byte at offset `addr` of the CHR ROM.
    pub fn read_chr(&self, addr: u16) -> (data: u8)
        requires
            (addr as int) < self.chr_rom@.len(),
        ensures
            data == self.chr_rom@[addr as int],
    {
        self.chr_rom[addr as usize]
    }

    /// The nametable mirroring.
    pub fn mirroring(&self) -> (m: &Mirroring)
        ensures
            *m == self.mirroring,
    {
        &self.mirroring
    }
}

/// Reads the PRG RAM at CPU address `addr`; the RAM repeats through the
/// address space from 0x6000 up.
pub fn read_prg_ram(mapper: &Nrom, addr: u16) -> (data: u8)
    requires
        addr >= 0x6000,
        mapper.prg_ram@.len() > 0,
    ensures
        data == window_byte(mapper.prg_ram@, addr - 0x6000),
{
    mapper.prg_ram[(addr - 0x6000) as usize % mapper.prg_ram.len()]
}

/// Writes `data` to the PRG RAM at CPU address `addr`.
pub fn write_prg_ram(mapper: &mut Nrom, addr: u16, data: u8)
    requires
        addr >= 0x6000,
        old(mapper).prg_ram@.len() > 0,
    ensures
        final(mapper).prg_ram@ == old(mapper).prg_ram@.update(
            (addr - 0x6000) % (old(mapper).prg_ram@.len() as int),
            data,
        ),
        final(mapper).prg_rom == old(mapper).prg_rom,
        final(mapper).chr_rom == old(mapper).chr_rom,
        final(mapper).mirroring == old(mapper).mirroring,
{
    let index = (addr - 0x6000) as usize % mapper.prg_ram.len();
    mapper.prg_ram.set(index, data);
}

/// Reads the PRG ROM at CPU address `addr`; the ROM repeats through the
/// address space from 0x8000 up.
pub fn read_prg_rom(mapper: &Nrom, addr: u16) -> (data: u8)
    requires
        addr >= 0x8000,
        mapper.prg_rom@.len() > 0,
    ensures
        data == window_byte(mapper.prg_rom@, addr - 0x8000),
{
    mapper.prg_rom[(addr - 0x8000) as usize % mapper.prg_rom.len()]
}

/// A write to PRG ROM, which has no effect.
pub fn write_prg_rom(mapper: &mut Nrom, addr: u16, data: u8)
    ensures
        *final(mapper) == *old(mapper),
{
}

} // verus!
