//! The iNES file header.
use vstd::prelude::*;

use crate::bit::BitPos;
use crate::cartridge::{header_mirroring, header_prg_ram_banks, Mirroring};

verus! {

/// The header starts with the iNES magic number, "NES" followed by 0x1A.
pub open spec fn has_ines_magic(header: Seq<u8>) -> bool {
    &&& header.len() >= 4
    &&& header[0] == 0x4e
    &&& header[1] == 0x45
    &&& header[2] == 0x53
    &&& header[3] == 0x1a
}

/// The fields of an iNES header.
pub struct INesHeader {
    /// The number of 16 KiB PRG ROM banks.
    pub prg_rom_banks: u8,
    /// The nametable mirroring.
    pub mirroring: Mirroring,
    /// The number of 8 KiB CHR ROM banks.
    pub chr_rom_banks: u8,
    /// The mapper number.
    pub mapper: u8,
    /// The number of 8 KiB PRG RAM banks.
    pub prg_ram_banks: u8,
}

impl INesHeader {
    /// Parses the header at the start of `header`.
    pub fn new(header: &[u8]) -> (h: INesHeader)
        requires
            header@.len() >= 9,
            has_ines_magic(header@),
        ensures
            h.prg_rom_banks == header@[4],
            h.chr_rom_banks == header@[5],
            h.mirroring == header_mirroring(header@),
            h.mapper == (header@[6] >> 4) | (header@[7] & 0xf0),
            h.prg_ram_banks == header_prg_ram_banks(header@),
    {
        let prg_rom_banks = header[4];
        let chr_rom_banks = header[5];
        let mirroring = if header[6].lsb() {
            Mirroring::Vertical
        } else {
            Mirroring::Horizontal
        };
        let mapper: u8 = header[6] >> 4 | header[7] & 0xF0;
        let prg_ram_banks: u8 = if header[8] == 0 { 1 } else { header[8] };

        INesHeader { prg_rom_banks, mirroring, chr_rom_banks, mapper, prg_ram_banks }
    }
}

} // verus!
