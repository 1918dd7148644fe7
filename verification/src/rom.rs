//! iNES cartridge image: the 16-byte header and the raw bytes that follow.

use vstd::prelude::*;

verus! {

/// Why a cartridge image was rejected.
#[derive(Clone, Copy, Debug, PartialEq, Eq, Structural)]
pub enum RomError {
    /// Fewer than the 16 header bytes were given.
    HeaderTruncated,
    /// The image does not begin with the iNES identifier bytes.
    BadIdentifier,
}

/// The four identifier bytes that open every iNES image: 'N', 'E', 'S', 0x1A.
pub open spec fn identifier_ok(data: Seq<u8>) -> bool {
    &&& data[0] == 0x4Eu8
    &&& data[1] == 0x45u8
    &&& data[2] == 0x53u8
    &&& data[3] == 0x1Au8
}

/// The `Flags6` value parsed from header byte 6.
pub open spec fn spec_flags6(data: u8) -> Flags6 {
    Flags6 {
        horizontal_arrangement: data & 0b1 == 0b1,
        battery_backed_prg_ram: data & 0b10 == 0b10,
        trainer: data & 0b100 == 0b100,
        four_screen_vram: data & 0b1000 == 0b1000,
        mapper_lower: data >> 4,
    }
}

/// The `Flags7` value parsed from header byte 7.
pub open spec fn spec_flags7(data: u8) -> Flags7 {
    Flags7 {
        vs_unisystem: data & 0b1 == 0b1,
        playchoice_10: data & 0b10 == 0b10,
        ines_2: data >> 6 == 2u8,
        mapper_upper: data >> 4,
    }
}

/// The `Header` value parsed from the first 16 bytes of `data`.
pub open spec fn spec_header(data: Seq<u8>) -> Header {
    Header {
        prg_rom_size: data[4],
        chr_rom_size: data[5],
        prg_ram_size: data[8],
        flags6: spec_flags6(data[6]),
        flags7: spec_flags7(data[7]),
        mapper_number: ((data[7] >> 4) << 4) | (data[6] >> 4),
    }
}

/// iNES header (16 bytes):
///   0-3: identifier, 4: PRG ROM size, 5: CHR ROM size, 6: flags, 7: flags,
///   8: PRG RAM size, 9-10: flags (unused here), 11-15: zero filled.
#[derive(Clone, Copy, Debug, PartialEq, Eq, Structural)]
pub struct Header {
    pub prg_rom_size: u8,
    pub chr_rom_size: u8,
    pub prg_ram_size: u8,
    pub flags6: Flags6,
    pub flags7: Flags7,
    pub mapper_number: u8,
}

impl Header {
    pub fn new(data: &Vec<u8>) -> (r: Result<Header, RomError>)
        requires
            data@.len() >= 16,
        ensures
            r is Ok <==> identifier_ok(data@),
            r is Ok ==> r->Ok_0 == (spec_header(data@)),
            r is Err ==> r == Err::<Header, RomError>(RomError::BadIdentifier),
    {
        if data[0] != 0x4E || data[1] != 0x45 || data[2] != 0x53 || data[3] != 0x1A {
            Err(RomError::BadIdentifier)
        } else {
            let flags6 = Flags6::new(&data[6]);
            let flags7 = Flags7::new(&data[7]);
            let mapper_number = (flags7.mapper_upper << 4) | flags6.mapper_lower;
            Ok(
                Header {
                    prg_rom_size: data[4],
                    chr_rom_size: data[5],
                    prg_ram_size: data[8],
                    flags6,
                    flags7,
                    mapper_number,
                },
            )
        }
    }
}

/// Flags 6: nametable arrangement, battery-backed PRG RAM, trainer presence,
/// four-screen VRAM, and the low nibble of the mapper number.
#[derive(Clone, Copy, Debug, PartialEq, Eq, Structural)]
pub struct Flags6 {
    pub horizontal_arrangement: bool,
    pub battery_backed_prg_ram: bool,
    pub trainer: bool,
    pub four_screen_vram: bool,
    pub mapper_lower: u8,
}

impl Flags6 {
    pub fn new(data: &u8) -> (r: Flags6)
        ensures
            r == (spec_flags6(*data)),
    {
        Flags6 {
            horizontal_arrangement: *data & 0b1 == 0b1,
            battery_backed_prg_ram: *data & 0b10 == 0b10,
            trainer: *data & 0b100 == 0b100,
            four_screen_vram: *data & 0b1000 == 0b1000,
            mapper_lower: *data >> 4,
        }
    }
}

/// Flags 7: console variants, the NES 2.0 marker, and the high nibble of the
/// mapper number.
#[derive(Clone, Copy, Debug, PartialEq, Eq, Structural)]
pub struct Flags7 {
    pub vs_unisystem: bool,
    pub playchoice_10: bool,
    pub ines_2: bool,
    pub mapper_upper: u8,
}

impl Flags7 {
    pub fn new(data: &u8) -> (r: Flags7)
        ensures
            r == (spec_flags7(*data)),
    {
        Flags7 {
            vs_unisystem: *data & 0b1 == 0b1,
            playchoice_10: *data & 0b10 == 0b10,
            ines_2: *data >> 6 == 2,
            mapper_upper: *data >> 4,
        }
    }
}

/// A parsed cartridge image: the header and every byte after it.
#[derive(Clone, Debug)]
pub struct Rom {
    pub header: Header,
    pub data: Vec<u8>,
}

impl Rom {
    /// Parses a whole iNES image held in memory. The header must be intact
    /// and carry the identifier; the remaining bytes are kept as they are.
    pub fn from_bytes(bytes: &Vec<u8>) -> (r: Result<Rom, RomError>)
        ensures
            r is Ok <==> bytes@.len() >= 16 && identifier_ok(bytes@),
            r is Ok ==> {
                let rom = r->Ok_0;
                &&& rom.header == (spec_header(bytes@))
                &&& rom.data@ == bytes@.subrange(16, bytes@.len() as int)
            },
            bytes@.len() < 16 ==> r == Err::<Rom, RomError>(RomError::HeaderTruncated),
            bytes@.len() >= 16 && !identifier_ok(bytes@) ==> r == Err::<Rom, RomError>(
                RomError::BadIdentifier,
            ),
    {
        if bytes.len() < 16 {
            return Err(RomError::HeaderTruncated);
        }
        let header = match Header::new(bytes) {
            Ok(h) => h,
            Err(e) => {
                return Err(e);
            },
        };
        let mut data: Vec<u8> = Vec::new();
        let mut i: usize = 16;
        while i < bytes.len()
            invariant
                16 <= i <= bytes@.len(),
                data@ == bytes@.subrange(16, i as int),
            decreases bytes@.len() - i,
        {
            data.push(bytes[i]);
            proof {
                assert(data@ =~= bytes@.subrange(16, i + 1 as int));
            }
            i = i + 1;
        }
        proof {
            assert(data@ =~= bytes@.subrange(16, bytes@.len() as int));
        }
        Ok(Rom { header, data })
    }
}

} // verus!
