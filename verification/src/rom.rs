//! iNES 1.0 container parsing: header validation, PRG/CHR extraction and
//! the nametable-arrangement flag.
use vstd::prelude::*;

use crate::mapper0::Mapper0;
use crate::ppu_bus::NametableArrangement;
use crate::util::copy_range;

verus! {

/// iNES header flag byte 6. Bit 0: nametable arrangement (0 = vertical,
/// 1 = horizontal); bit 1: battery-backed RAM; bit 2: trainer present;
/// bit 3: alternative nametable layout; bits 4-7: low mapper nibble.
#[derive(Debug, Clone, Copy, PartialEq, Eq, Structural)]
pub struct INesFlag6 {
    pub bits: u8,
}

impl INesFlag6 {
    pub fn from_bytes(value: u8) -> (r: Self)
        ensures
            r.bits == value,
    {
        INesFlag6 { bits: value }
    }

    pub fn nametable_arrangement(&self) -> (r: u8)
        ensures
            r == self.bits % 2,
    {
        self.bits % 2
    }

    pub fn persistant_ram(&self) -> (r: u8)
        ensures
            r == (self.bits / 2) % 2,
    {
        (self.bits / 2) % 2
    }

    pub fn has_trainer(&self) -> (r: u8)
        ensures
            r == (self.bits / 4) % 2,
    {
        (self.bits / 4) % 2
    }

    pub fn alternative_nametable_layout(&self) -> (r: u8)
        ensures
            r == (self.bits / 8) % 2,
    {
        (self.bits / 8) % 2
    }

    pub fn low_mapper_nybble(&self) -> (r: u8)
        ensures
            r == self.bits / 16,
    {
        self.bits / 16
    }

    /// Bit 0 of flag 6 selects the nametable arrangement.
    pub fn get_nametable_mirroring_mode(&self) -> (r: NametableArrangement)
        ensures
            r == (if self.bits % 2 == 0 {
                NametableArrangement::Vertical
            } else {
                NametableArrangement::Horizontal
            }),
    {
        if self.bits % 2 == 0 {
            NametableArrangement::Vertical
        } else {
            NametableArrangement::Horizontal
        }
    }
}

/// Why a ROM image was rejected at load time.
#[derive(Debug, Clone, Copy, PartialEq, Eq, Structural)]
pub enum RomFormatError {
    /// Fewer than the 16 header bytes.
    TooShort,
    /// The image does not start with "NES\x1A".
    BadMagic,
    /// A mapper other than NROM (mapper 0).
    UnsupportedMapper,
    /// PRG size is not 16 KiB or 32 KiB.
    BadPrgSize,
    /// CHR size is not 0 or 8 KiB.
    BadChrSize,
    /// The image ends before the PRG and CHR data it announces.
    Truncated,
}

/// The header announces "NES\x1A".
pub open spec fn spec_magic_ok(b: Seq<u8>) -> bool {
    b[0] == 0x4e && b[1] == 0x45 && b[2] == 0x53 && b[3] == 0x1a
}

/// Mapper number: high nibble of flag 7 joined with the high nibble of
/// flag 6.
pub open spec fn spec_mapper_number(b: Seq<u8>) -> u8 {
    ((b[7] / 16) * 16 + b[6] / 16) as u8
}

/// PRG ROM byte count announced by the header.
pub open spec fn spec_prg_size(b: Seq<u8>) -> int {
    b[4] as int * 0x4000
}

/// CHR ROM byte count announced by the header.
pub open spec fn spec_chr_size(b: Seq<u8>) -> int {
    b[5] as int * 0x2000
}

/// The reason an image is rejected, checked in this order, or `None` when
/// it parses.
pub open spec fn spec_rom_error(b: Seq<u8>) -> Option<RomFormatError> {
    if b.len() < 16 {
        Some(RomFormatError::TooShort)
    } else if !spec_magic_ok(b) {
        Some(RomFormatError::BadMagic)
    } else if spec_mapper_number(b) != 0 {
        Some(RomFormatError::UnsupportedMapper)
    } else if b[4] != 1 && b[4] != 2 {
        Some(RomFormatError::BadPrgSize)
    } else if b[5] > 1 {
        Some(RomFormatError::BadChrSize)
    } else if b.len() < 16 + spec_prg_size(b) + spec_chr_size(b) {
        Some(RomFormatError::Truncated)
    } else {
        None
    }
}

/// A parsed cartridge: the mapper holding PRG and CHR, and header flag 6.
pub struct Rom {
    pub mapper: Mapper0,
    pub flag6: INesFlag6,
}

impl Rom {
    pub fn new(mapper: Mapper0, flag6: INesFlag6) -> (r: Self)
        ensures
            r.mapper == mapper,
            r.flag6 == flag6,
    {
        Rom { mapper, flag6 }
    }

    /// Parses an iNES image: 16-byte header, then PRG, then CHR. Succeeds
    /// exactly when `spec_rom_error` is `None`; the mapper then holds the
    /// image's PRG bytes and its CHR bytes (or 8 KiB of zeroed CHR RAM when
    /// the header announces none).
    pub fn parse(rom_content: Vec<u8>) -> (r: Result<Rom, RomFormatError>)
        ensures
            match r {
                Ok(rom) => {
                    &&& spec_rom_error(rom_content@) is None
                    &&& rom.mapper.wf()
                    &&& rom.mapper@.prg == rom_content@.subrange(
                        16,
                        16 + spec_prg_size(rom_content@),
                    )
                    &&& rom.mapper@.chr == (if spec_chr_size(rom_content@) == 0 {
                        Seq::new(0x2000, |i: int| 0u8)
                    } else {
                        rom_content@.subrange(
                            16 + spec_prg_size(rom_content@),
                            16 + spec_prg_size(rom_content@) + spec_chr_size(rom_content@),
                        )
                    })
                    &&& rom.flag6.bits == rom_content@[6]
                },
                Err(e) => spec_rom_error(rom_content@) == Some(e),
            },
    {
        if rom_content.len() < 16 {
            return Err(RomFormatError::TooShort);
        }
        if !(rom_content[0] == 0x4e && rom_content[1] == 0x45 && rom_content[2] == 0x53
            && rom_content[3] == 0x1a) {
            return Err(RomFormatError::BadMagic);
        }
        let flag6: u8 = rom_content[6];
        let flag7: u8 = rom_content[7];
        let mapper_number: u8 = (flag7 / 16) * 16 + flag6 / 16;
        if mapper_number != 0 {
            return Err(RomFormatError::UnsupportedMapper);
        }
        let prg_banks: u8 = rom_content[4];
        let chr_banks: u8 = rom_content[5];
        if prg_banks != 1 && prg_banks != 2 {
            return Err(RomFormatError::BadPrgSize);
        }
        if chr_banks > 1 {
            return Err(RomFormatError::BadChrSize);
        }
        let prg_rom_size: usize = prg_banks as usize * 0x4000;
        let chr_rom_size: usize = chr_banks as usize * 0x2000;
        if rom_content.len() < 16 + prg_rom_size + chr_rom_size {
            return Err(RomFormatError::Truncated);
        }
        let prg_rom: Vec<u8> = copy_range(&rom_content, 16, prg_rom_size);
        let chr_rom: Vec<u8> = copy_range(&rom_content, 16 + prg_rom_size, chr_rom_size);
        let mapper = Mapper0::new(prg_rom, chr_rom);
        Ok(Rom::new(mapper, INesFlag6::from_bytes(flag6)))
    }
}

} // verus!
