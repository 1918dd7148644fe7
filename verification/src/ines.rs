//! iNES (.nes) file contents: header plus the PRG and CHR ROM segments cut
//! out of the bytes that follow it.

use vstd::prelude::*;

verus! {

/// PRG ROM unit size (16 KB).
pub const PRG_UNIT_SIZE: usize = 16 * 1024;

/// CHR ROM unit size (8 KB).
pub const CHR_UNIT_SIZE: usize = 8 * 1024;

/// Why an iNES image was rejected.
#[derive(Clone, Copy, Debug, PartialEq, Eq, Structural)]
pub enum InesError {
    /// Fewer than the 16 header bytes were given.
    HeaderTruncated,
    /// The bytes after the header do not cover the declared PRG ROM units.
    PrgIncomplete,
    /// The bytes after the PRG ROM do not cover the declared CHR ROM units.
    ChrIncomplete,
}

/// The `Flags6` value parsed from header byte 6.
pub open spec fn spec_flags6(data: u8) -> Flags6 {
    Flags6 {
        horizontal_arrangement: data & 0b1 == 0b1,
        battery_backed_prg_ram: data & 0b10 == 0b10,
        trainer: data & 0b100 == 0b100,
        four_screen_vram: data & 0b1000 == 0b1000,
        mapper_lower: data >> 4,
    }
}

/// The `Flags7` value parsed from header byte 7.
pub open spec fn spec_flags7(data: u8) -> Flags7 {
    Flags7 {
        vs_unisystem: data & 0b1 == 0b1,
        playchoice_10: data & 0b10 == 0b10,
        ines_2: data >> 6 == 2u8,
        mapper_upper: data >> 4,
    }
}

/// The `Header` value parsed from the first 16 bytes of `data`.
pub open spec fn spec_header(data: Seq<u8>) -> Header {
    Header {
        prg_rom_size: data[4],
        chr_rom_size: data[5],
        prg_ram_size: data[8],
        flags6: spec_flags6(data[6]),
        flags7: spec_flags7(data[7]),
        mapper_number: ((data[7] >> 4) << 4) | (data[6] >> 4),
    }
}

/// How many bytes of PRG ROM the header declares.
pub open spec fn spec_prg_len(data: Seq<u8>) -> int {
    data[4] * (PRG_UNIT_SIZE as int)
}

/// How many bytes of CHR ROM the header declares.
pub open spec fn spec_chr_len(data: Seq<u8>) -> int {
    data[5] * (CHR_UNIT_SIZE as int)
}

/// iNES header (16 bytes):
///   0-3: identifier, 4: PRG ROM size, 5: CHR ROM size, 6: flags, 7: flags,
///   8: PRG RAM size, 9-10: flags (unused here), 11-15: zero filled.
#[derive(Clone, Copy, Debug, PartialEq, Eq, Structural)]
pub struct Header {
    pub prg_rom_size: u8,
    pub chr_rom_size: u8,
    pub prg_ram_size: u8,
    pub flags6: Flags6,
    pub flags7: Flags7,
    pub mapper_number: u8,
}

impl Header {
    pub fn new(data: &Vec<u8>) -> (r: Header)
        requires
            data@.len() >= 16,
        ensures
            r == (spec_header(data@)),
    {
        let flags6 = Flags6::new(&data[6]);
        let flags7 = Flags7::new(&data[7]);
        let mapper_number = (flags7.mapper_upper << 4) | flags6.mapper_lower;
        Header {
            prg_rom_size: data[4],
            chr_rom_size: data[5],
            prg_ram_size: data[8],
            flags6,
            flags7,
            mapper_number,
        }
    }
}

/// Flags 6: nametable arrangement, battery-backed PRG RAM, trainer presence,
/// four-screen VRAM, and the low nibble of the mapper number.
#[derive(Clone, Copy, Debug, PartialEq, Eq, Structural)]
pub struct Flags6 {
    pub horizontal_arrangement: bool,
    pub battery_backed_prg_ram: bool,
    pub trainer: bool,
    pub four_screen_vram: bool,
    pub mapper_lower: u8,
}

impl Flags6 {
    pub fn new(data: &u8) -> (r: Flags6)
        ensures
            r == (spec_flags6(*data)),
    {
        Flags6 {
            horizontal_arrangement: *data & 0b1 == 0b1,
            battery_backed_prg_ram: *data & 0b10 == 0b10,
            trainer: *data & 0b100 == 0b100,
            four_screen_vram: *data & 0b1000 == 0b1000,
            mapper_lower: *data >> 4,
        }
    }
}

/// Flags 7: console variants, the NES 2.0 marker, and the high nibble of the
/// mapper number.
#[derive(Clone, Copy, Debug, PartialEq, Eq, Structural)]
pub struct Flags7 {
    pub vs_unisystem: bool,
    pub playchoice_10: bool,
    pub ines_2: bool,
    pub mapper_upper: u8,
}

impl Flags7 {
    pub fn new(data: &u8) -> (r: Flags7)
        ensures
            r == (spec_flags7(*data)),
    {
        Flags7 {
            vs_unisystem: *data & 0b1 == 0b1,
            playchoice_10: *data & 0b10 == 0b10,
            ines_2: *data >> 6 == 2,
            mapper_upper: *data >> 4,
        }
    }
}

/// The parts of an iNES file this core consumes: the header, the PRG ROM
/// bytes and the CHR ROM bytes (a trainer segment is not supported).
#[derive(Clone, Debug)]
pub struct Ines {
    pub header: Header,
    pub prg_rom: Vec<u8>,
    pub chr_rom: Vec<u8>,
}

/// Copies `src[start..end]` into a fresh vector.
fn copy_range(src: &Vec<u8>, start: usize, end: usize) -> (r: Vec<u8>)
    requires
        start <= end <= src@.len(),
    ensures
        r@ == src@.subrange(start as int, end as int),
{
    let mut r: Vec<u8> = Vec::new();
    let mut i: usize = start;
    while i < end
        invariant
            start <= i <= end <= src@.len(),
            r@ == src@.subrange(start as int, i as int),
        decreases end - i,
    {
        r.push(src[i]);
        proof {
            assert(r@ =~= src@.subrange(start as int, i + 1 as int));
        }
        i = i + 1;
    }
    r
}

impl Ines {
    /// Parses a whole iNES image held in memory, validating that the bytes
    /// after the header cover the declared PRG and CHR ROM units.
    pub fn from_bytes(bytes: &Vec<u8>) -> (r: Result<Ines, InesError>)
        ensures
            r is Ok <==> bytes@.len() >= 16 && bytes@.len() - 16 >= spec_prg_len(bytes@)
                + spec_chr_len(bytes@),
            r is Ok ==> {
                let ines = r->Ok_0;
                &&& ines.header == (spec_header(bytes@))
                &&& ines.prg_rom@ == bytes@.subrange(16, 16 + spec_prg_len(bytes@))
                &&& ines.chr_rom@ == bytes@.subrange(
                    16 + spec_prg_len(bytes@),
                    16 + spec_prg_len(bytes@) + spec_chr_len(bytes@),
                )
            },
            bytes@.len() < 16 ==> r == Err::<Ines, InesError>(InesError::HeaderTruncated),
            bytes@.len() >= 16 && bytes@.len() - 16 < spec_prg_len(bytes@) ==> r == Err::<
                Ines,
                InesError,
            >(InesError::PrgIncomplete),
            bytes@.len() >= 16 && bytes@.len() - 16 >= spec_prg_len(bytes@) && bytes@.len() - 16
                < spec_prg_len(bytes@) + spec_chr_len(bytes@) ==> r == Err::<Ines, InesError>(
                InesError::ChrIncomplete,
            ),
    {
        if bytes.len() < 16 {
            return Err(InesError::HeaderTruncated);
        }
        let header = Header::new(bytes);
        let data_len = bytes.len() - 16;

        let prg_len = header.prg_rom_size as usize * PRG_UNIT_SIZE;
        if data_len < prg_len {
            return Err(InesError::PrgIncomplete);
        }
        let prg_rom = copy_range(bytes, 16, 16 + prg_len);

        let chr_len = header.chr_rom_size as usize * CHR_UNIT_SIZE;
        if data_len - prg_len < chr_len {
            return Err(InesError::ChrIncomplete);
        }
        let chr_rom = copy_range(bytes, 16 + prg_len, 16 + prg_len + chr_len);

        Ok(Ines { header, prg_rom, chr_rom })
    }
}

} // verus!
