//! An NROM cartridge built from an iNES image.
//!
//! An iNES image is a 16-byte header followed by the PRG ROM and then the CHR
//! ROM. Byte 4 of the header counts 16 KiB PRG ROM banks, byte 5 counts 8 KiB
//! CHR ROM banks, bit 0 of byte 6 selects the nametable mirroring, the high
//! nibbles of bytes 6 and 7 hold the mapper number and byte 8 counts 8 KiB
//! PRG RAM banks (0 meaning one bank).
use vstd::prelude::*;

use crate::bit::BitPos;

verus! {

/// The size of an iNES header in bytes.
pub const INES_HEADER_SIZE: usize = 16;
/// The size of a PRG RAM bank in bytes.
pub const PRG_RAM_BANK_SIZE: usize = 0x2000;
/// The size of a PRG ROM bank in bytes.
pub const PRG_ROM_BANK_SIZE: usize = 0x4000;
/// The size of a CHR ROM bank in bytes.
pub const CHR_ROM_BANK_SIZE: usize = 0x2000;

/// How the four logical nametables map onto the two physical ones.
#[derive(Clone, Copy, Debug, PartialEq, Eq, Structural)]
pub enum Mirroring {
    /// The first two logical nametables share one physical nametable, and
    /// the last two share the other.
    Horizontal,
    /// The first and third logical nametables share one physical nametable,
    /// and the second and fourth share the other.
    Vertical,
}

/// The mapper number that an iNES header declares.
pub open spec fn mapper_number(header: Seq<u8>) -> u8 {
    (header[7] & 0xf0) | (header[6] >> 4)
}

/// The mirroring that an iNES header declares.
pub open spec fn header_mirroring(header: Seq<u8>) -> Mirroring {
    if header[6] % 2 == 1 {
        Mirroring::Vertical
    } else {
        Mirroring::Horizontal
    }
}

/// The number of PRG RAM banks that an iNES header declares.
pub open spec fn header_prg_ram_banks(header: Seq<u8>) -> u8 {
    if header[8] == 0 {
        1
    } else {
        header[8]
    }
}

/// The size in bytes of the PRG ROM that an iNES header declares.
pub open spec fn prg_rom_size(header: Seq<u8>) -> int {
    header[4] * PRG_ROM_BANK_SIZE
}

/// The size in bytes of the CHR ROM that an iNES header declares.
pub open spec fn chr_rom_size(header: Seq<u8>) -> int {
    header[5] * CHR_ROM_BANK_SIZE
}

/// The size in bytes of the PRG RAM that an iNES header declares.
pub open spec fn prg_ram_size(header: Seq<u8>) -> int {
    header_prg_ram_banks(header) * PRG_RAM_BANK_SIZE
}

/// `rom` is an iNES image of an NROM cartridge: a header that declares mapper
/// 0, followed by at least the PRG ROM and CHR ROM that it declares.
pub open spec fn is_nrom_image(rom: Seq<u8>) -> bool {
    &&& rom.len() >= INES_HEADER_SIZE
    &&& mapper_number(rom) == 0
    &&& INES_HEADER_SIZE + prg_rom_size(rom) + chr_rom_size(rom) <= rom.len()
}

/// The PRG ROM of an iNES image.
pub open spec fn image_prg_rom(rom: Seq<u8>) -> Seq<u8> {
    rom.subrange(INES_HEADER_SIZE as int, INES_HEADER_SIZE + prg_rom_size(rom))
}

/// The CHR ROM of an iNES image.
pub open spec fn image_chr_rom(rom: Seq<u8>) -> Seq<u8> {
    rom.subrange(
        INES_HEADER_SIZE + prg_rom_size(rom),
        INES_HEADER_SIZE + prg_rom_size(rom) + chr_rom_size(rom),
    )
}

/// The byte at `offset` of a window that repeats `mem` to fill it.
pub open spec fn window_byte(mem: Seq<u8>, offset: int) -> u8 {
    mem[offset % (mem.len() as int)]
}

/// A window shows its memory from the start and then repeats it: an offset
/// inside the memory reads that byte, and an offset one memory length on
/// reads the same byte.
pub proof fn lemma_window_byte(mem: Seq<u8>, offset: int)
    requires
        mem.len() > 0,
        offset >= 0,
    ensures
        offset < mem.len() ==> window_byte(mem, offset) == mem[offset],
        window_byte(mem, offset + mem.len()) == window_byte(mem, offset),
{
    vstd::arithmetic::div_mod::lemma_mod_add_multiples_vanish(offset, mem.len() as int);
    if offset < mem.len() {
        vstd::arithmetic::div_mod::lemma_small_mod(offset as nat, mem.len());
    }
}

/// The byte that a CPU read of `address` returns from a cartridge with PRG
/// RAM `ram` and PRG ROM `rom`: PRG RAM at 0x6000-0x7FFF and PRG ROM at
/// 0x8000-0xFFFF, each repeated to fill its window, and 0 elsewhere.
pub open spec fn prg_read(ram: Seq<u8>, rom: Seq<u8>, address: u16) -> u8 {
    if 0x6000 <= address <= 0x7fff {
        window_byte(ram, address - 0x6000)
    } else if 0x8000 <= address {
        window_byte(rom, address - 0x8000)
    } else {
        0
    }
}

/// PRG memory fills its window from the start, repeated only past its end:
/// inside PRG ROM or PRG RAM, a read of an address returns the byte at its
/// offset in the window, and a read one memory length further on returns
/// the same byte.
pub proof fn lemma_prg_read(ram: Seq<u8>, rom: Seq<u8>, address: u16)
    ensures
        0x8000 <= address && address - 0x8000 < rom.len() ==> prg_read(ram, rom, address)
            == rom[address - 0x8000],
        0x6000 <= address <= 0x7fff && address - 0x6000 < ram.len() ==> prg_read(ram, rom, address)
            == ram[address - 0x6000],
        0x8000 <= address && rom.len() > 0 && address + rom.len() <= 0xffff ==> prg_read(
            ram,
            rom,
            (address + rom.len()) as u16,
        ) == prg_read(ram, rom, address),
        0x6000 <= address && ram.len() > 0 && address + ram.len() <= 0x7fff ==> prg_read(
            ram,
            rom,
            (address + ram.len()) as u16,
        ) == prg_read(ram, rom, address),
        address < 0x6000 ==> prg_read(ram, rom, address) == 0,
{
    if 0x8000 <= address && rom.len() > 0 {
        lemma_window_byte(rom, address - 0x8000);
    }
    if 0x6000 <= address && ram.len() > 0 {
        lemma_window_byte(ram, address - 0x6000);
    }
}

/// An NROM cartridge.
#[derive(Debug)]
pub struct NromCartridge {
    /// The PRG RAM.
    pub prg_ram: Vec<u8>,
    /// The PRG ROM.
    pub prg_rom: Vec<u8>,
    /// The CHR ROM.
    pub chr_rom: Vec<u8>,
    /// The nametable mirroring.
    pub mirroring: Mirroring,
}

impl NromCartridge {
    /// The byte that a CPU read of `address` returns.
    pub open spec fn prg_view(&self, address: u16) -> u8 {
        prg_read(self.prg_ram@, self.prg_rom@, address)
    }

    /// A CPU read of `address` does not divide by an empty memory.
    pub open spec fn can_read_prg(&self, address: u16) -> bool {
        &&& 0x6000 <= address <= 0x7fff ==> self.prg_ram@.len() > 0
        &&& 0x8000 <= address ==> self.prg_rom@.len() > 0
    }

    /// Builds the cartridge that the iNES image `rom` describes.
    pub fn new(rom: &[u8]) -> (cart: NromCartridge)
        requires
            is_nrom_image(rom@),
        ensures
            cart.prg_ram@ == Seq::new(prg_ram_size(rom@) as nat, |i: int| 0u8),
            cart.prg_rom@ == image_prg_rom(rom@),
            cart.chr_rom@ == image_chr_rom(rom@),
            cart.mirroring == header_mirroring(rom@),
    {
        let (header, data) = rom.split_at(INES_HEADER_SIZE);

        let mirroring = if header[6].lsb() {
            Mirroring::Vertical
        } else {
            Mirroring::Horizontal
        };

        let num_prg_rom_banks: u8 = header[4];
        let num_prg_ram_banks: u8 = if header[8] == 0 { 1 } else { header[8] };
        let num_chr_rom_banks: u8 = header[5];

        let prg_ram_size: usize = num_prg_ram_banks as usize * PRG_RAM_BANK_SIZE;
        let prg_rom_size: usize = num_prg_rom_banks as usize * PRG_ROM_BANK_SIZE;
        let chr_rom_size: usize = num_chr_rom_banks as usize * CHR_ROM_BANK_SIZE;

        let prg_rom = vstd::slice::slice_to_vec(&data[0..prg_rom_size]);
        let chr_rom = vstd::slice::slice_to_vec(&data[prg_rom_size..prg_rom_size + chr_rom_size]);
        assert(prg_rom@ =~= image_prg_rom(rom@));
        assert(chr_rom@ =~= image_chr_rom(rom@));
        let prg_ram: Vec<u8> = vec![0; prg_ram_size];
        assert(prg_ram@ =~= Seq::new(prg_ram_size as nat, |i: int| 0u8));
        NromCartridge { prg_ram, prg_rom, chr_rom, mirroring }
    }

    /// Reads the byte at CPU address `address`.
    pub fn read_prg(&self, address: u16) -> (data: u8)
        requires
            self.can_read_prg(address),
        ensures
            data == self.prg_view(address),
    {
        if 0x6000 <= address && address <= 0x7fff {
            self.prg_ram[(address - 0x6000) as usize % self.prg_ram.len()]
        } else if 0x8000 <= address {
            self.prg_rom[(address - 0x8000) as usize % self.prg_rom.len()]
        } else {
            0
        }
    }

    /// Writes `data` to the PRG RAM at CPU address `address`.
    pub fn write_prg(&mut self, address: u16, data: u8)
        requires
            0x6000 <= address <= 0x7fff,
            old(self).prg_ram@.len() > 0,
        ensures
            final(self).prg_ram@ == old(self).prg_ram@.update(
                (address - 0x6000) % (old(self).prg_ram@.len() as int),
                data,
            ),
            final(self).prg_rom == old(self).prg_rom,
            final(self).chr_rom == old(self).chr_rom,
            final(self).mirroring == old(self).mirroring,
    {
        let index = (address - 0x6000) as usize % self.prg_ram.len();
        self.prg_ram.set(index, data);
    }

    /// Reads the byte at offset `address` of the CHR ROM.
    pub fn _read_chr(&self, address: u16) -> (data: u8)
        requires
            (address as int) < self.chr_rom@.len(),
        ensures
            data == self.chr_rom@[address as int],
    {
        self.chr_rom[address as usize]
    }

    /// The nametable mirroring of the cartridge.
    pub fn _mirroring(&self) -> (m: Mirroring)
        ensures
            m == self.mirroring,
    {
        self.mirroring
    }
}

} // verus!
