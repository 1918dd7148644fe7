//! NROM (mapper 0) cartridge mapping for PRG ROM: a fixed 32 KB window at
//! $8000-$FFFF, or a single 16 KB bank mirrored into both halves.

use vstd::prelude::*;

use crate::memory::{Memory, MemoryError, ReadOnlyMemory, rom_resolves};
use crate::rom::Header;

verus! {

/// Why a mapper could not be constructed.
#[derive(Clone, Copy, Debug, PartialEq, Eq, Structural)]
pub enum MapperError {
    /// The PRG data is shorter than the declared number of 16 KB units.
    PrgIncomplete,
}

/// NROM mapper for PRG ROM.
///
/// Addresses below $8000 are outside this mapper's supported range (reserved
/// for PRG RAM in richer mappers) and fail loudly. At $8000 and above the
/// offset into the PRG data is `address - $8000`, except that with a single
/// 16 KB bank, addresses above $BFFF mirror the bank: `address - $C000`.
pub struct NRomPRG {
    header: Header,
    is_mirroring_prg: bool,
    prg: ReadOnlyMemory,
}

impl NRomPRG {
    /// Whether a single 16 KB PRG bank is mirrored into $C000-$FFFF.
    pub closed spec fn mirroring(&self) -> bool {
        self.is_mirroring_prg
    }

    /// The header the mapper was built from.
    pub closed spec fn spec_header(&self) -> Header {
        self.header
    }

    /// Builds the mapper, validating that the PRG data covers the declared
    /// number of 16 KB units.
    pub fn new(header: Header, prg: Vec<u8>) -> (r: Result<NRomPRG, MapperError>)
        ensures
            r is Ok <==> prg@.len() >= header.prg_rom_size * 0x4000,
            r is Err ==> r == Err::<NRomPRG, MapperError>(MapperError::PrgIncomplete),
            r is Ok ==> {
                let m = r->Ok_0;
                &&& m.inv()
                &&& m.backing() == prg@
                &&& m.mirroring() == (header.prg_rom_size == 1)
                &&& m.spec_header() == header
            },
    {
        if prg.len() < header.prg_rom_size as usize * 0x4000 {
            return Err(MapperError::PrgIncomplete);
        }
        let is_mirroring_prg = header.prg_rom_size == 1;
        Ok(NRomPRG { header, prg: ReadOnlyMemory::new(prg), is_mirroring_prg })
    }
}

impl Memory for NRomPRG {
    closed spec fn inv(&self) -> bool {
        &&& self.prg.inv()
        &&& self.is_mirroring_prg == (self.header.prg_rom_size == 1)
        &&& self.prg.backing().len() >= self.header.prg_rom_size * 0x4000
    }

    closed spec fn backing(&self) -> Seq<u8> {
        self.prg.backing()
    }

    closed spec fn read_index(&self, address: u16) -> Option<int> {
        if address >= 0x8000 {
            let offset = if self.is_mirroring_prg && address > 0xBFFF {
                (address - 0xC000) as u16
            } else {
                (address - 0x8000) as u16
            };
            self.prg.read_index(offset)
        } else {
            None
        }
    }

    closed spec fn write_index(&self, address: u16) -> Option<int> {
        None
    }

    proof fn indices_in_bounds(&self, address: u16) {
        rom_resolves(&self.prg);
        self.prg.indices_in_bounds(address);
        if address >= 0x8000 {
            let offset = if self.is_mirroring_prg && address > 0xBFFF {
                (address - 0xC000) as u16
            } else {
                (address - 0x8000) as u16
            };
            self.prg.indices_in_bounds(offset);
        }
    }

    fn load(&self, address: u16) -> (r: Result<u8, MemoryError>) {
        proof {
            rom_resolves(&self.prg);
        }
        if address >= 0x8000 {
            let offset = if self.is_mirroring_prg && address > 0xBFFF {
                address - 0xC000
            } else {
                address - 0x8000
            };
            self.prg.load(offset)
        } else {
            Err(MemoryError::OutOfRange(address))
        }
    }

    fn store(&mut self, address: u16, value: u8) -> (r: Result<(), MemoryError>) {
        if address >= 0x8000 {
            Err(MemoryError::ReadOnly(address))
        } else {
            Err(MemoryError::OutOfRange(address))
        }
    }
}

/// The PRG offset behind a mapped address: `address - $8000`, except that a
/// mirrored single bank folds $C000-$FFFF back onto it.
pub open spec fn nrom_offset(address: u16, mirroring: bool) -> int
    recommends
        address >= 0x8000,
{
    if mirroring && address > 0xBFFF {
        address - 0xC000
    } else {
        address - 0x8000
    }
}

/// How the NROM mapper resolves addresses: nothing below $8000 (loudly out
/// of its range), the offset rule into the PRG data at $8000 and above, and
/// no address writable anywhere. The PRG data covers the declared units, and
/// a single declared unit is exactly what is mirrored.
pub proof fn nrom_resolves(m: &NRomPRG)
    requires
        m.inv(),
    ensures
        forall|a: u16| a < 0x8000 ==> m.read_index(a) is None,
        forall|a: u16|
            a >= 0x8000 ==> m.read_index(a) == (if nrom_offset(a, m.mirroring())
                < m.backing().len() {
                Some(nrom_offset(a, m.mirroring()))
            } else {
                None::<int>
            }),
        forall|a: u16| m.write_index(a) is None,
        m.backing().len() >= m.spec_header().prg_rom_size * 0x4000,
        m.mirroring() == (m.spec_header().prg_rom_size == 1),
{
    rom_resolves(&m.prg);
}

/// With a single mirrored 16 KB PRG bank, $8000 + k and $C000 + k resolve to
/// the same PRG cell for every offset k in the bank, so loads at the two
/// addresses return the same byte.
pub proof fn lemma_prg_mirroring(m: &NRomPRG, k: u16)
    requires
        m.inv(),
        m.mirroring(),
        k <= 0x3FFF,
    ensures
        m.read_index((0x8000 + k) as u16) == m.read_index((0xC000 + k) as u16),
        m.read_index((0x8000 + k) as u16) is Some ==> crate::memory::byte_at(
            *m,
            (0x8000 + k) as u16,
        ) == crate::memory::byte_at(*m, (0xC000 + k) as u16),
{
}

/// NROM mapper for CHR ROM.
pub struct NRomCHR {
    prg: ReadOnlyMemory,
}

} // verus!
