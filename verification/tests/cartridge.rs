use nes_core::cpu::{Flag, CPU};
use nes_core::ines::{Ines, InesError};
use nes_core::mapper::{MapperError, NRomPRG};
use nes_core::memory::{Memory, MemoryError};
use nes_core::rom::{Flags6, Flags7, Header, Rom, RomError};

fn nrom_header(prg_units: u8) -> Header {
    Header {
        prg_rom_size: prg_units,
        chr_rom_size: 1,
        prg_ram_size: 0,
        flags6: Flags6::new(&0),
        flags7: Flags7::new(&0),
        mapper_number: 0,
    }
}

#[test]
fn nrom_mirrors_a_single_prg_bank() {
    let mut prg = vec![0u8; 0x4000];
    prg[0x0000] = 0x11;
    prg[0x1234] = 0x22;
    prg[0x3FFF] = 0x33;
    let m = NRomPRG::new(nrom_header(1), prg).unwrap();
    for k in [0x0000u16, 0x1234, 0x3FFF, 0x0001, 0x2000] {
        assert_eq!(m.load(0x8000 + k).unwrap(), m.load(0xC000 + k).unwrap());
    }
    assert_eq!(m.load(0x8000), Ok(0x11));
    assert_eq!(m.load(0xC000), Ok(0x11));
    assert_eq!(m.load(0x9234), Ok(0x22));
    assert_eq!(m.load(0xD234), Ok(0x22));
    assert_eq!(m.load(0xBFFF), Ok(0x33));
    assert_eq!(m.load(0xFFFF), Ok(0x33));
}

#[test]
fn nrom_two_banks_do_not_mirror() {
    let mut prg = vec![0u8; 0x8000];
    prg[0x0000] = 0x11;
    prg[0x4000] = 0x99;
    let m = NRomPRG::new(nrom_header(2), prg).unwrap();
    assert_eq!(m.load(0x8000), Ok(0x11));
    assert_eq!(m.load(0xC000), Ok(0x99));
}

#[test]
fn nrom_rejects_low_addresses_and_stores() {
    let mut m = NRomPRG::new(nrom_header(1), vec![0u8; 0x4000]).unwrap();
    assert_eq!(m.load(0x7FFF), Err(MemoryError::OutOfRange(0x7FFF)));
    assert_eq!(m.load(0x4020), Err(MemoryError::OutOfRange(0x4020)));
    assert_eq!(m.store(0x8000, 1), Err(MemoryError::ReadOnly(0x8000)));
    assert_eq!(m.store(0x6000, 1), Err(MemoryError::OutOfRange(0x6000)));
}

#[test]
fn nrom_rejects_truncated_prg() {
    let r = NRomPRG::new(nrom_header(1), vec![0u8; 0x3FFF]);
    assert!(matches!(r, Err(MapperError::PrgIncomplete)));
}

#[test]
fn power_up_reads_the_reset_vector() {
    let mut prg = vec![0u8; 0x4000];
    // The reset vector at $FFFC/$FFFD mirrors into the bank at $3FFC/$3FFD.
    prg[0x3FFC] = 0x00;
    prg[0x3FFD] = 0x80;
    let mapper = NRomPRG::new(nrom_header(1), prg).unwrap();
    let mut cpu = CPU::new(mapper);
    cpu.power_up().unwrap();
    assert_eq!(cpu.reg_pc(), 0x8000);
    assert_eq!(cpu.reg_s(), 0xFD);
    assert!(cpu.get_status(Flag::Irq));
    assert_eq!(cpu.reg_a(), 0);
    assert_eq!(cpu.reg_x(), 0);
    assert_eq!(cpu.reg_y(), 0);
}

fn ines_image(prg_units: u8, chr_units: u8, flags6: u8, flags7: u8) -> Vec<u8> {
    let mut bytes = vec![0x4E, 0x45, 0x53, 0x1A, prg_units, chr_units, flags6, flags7, 0, 0, 0, 0, 0, 0, 0, 0];
    bytes.extend(std::iter::repeat(0xAA).take(prg_units as usize * 16 * 1024));
    bytes.extend(std::iter::repeat(0xBB).take(chr_units as usize * 8 * 1024));
    bytes
}

#[test]
fn ines_splits_prg_and_chr() {
    let bytes = ines_image(1, 1, 0, 0);
    let ines = Ines::from_bytes(&bytes).unwrap();
    assert_eq!(ines.header.prg_rom_size, 1);
    assert_eq!(ines.header.chr_rom_size, 1);
    assert_eq!(ines.prg_rom.len(), 16 * 1024);
    assert_eq!(ines.chr_rom.len(), 8 * 1024);
    assert!(ines.prg_rom.iter().all(|b| *b == 0xAA));
    assert!(ines.chr_rom.iter().all(|b| *b == 0xBB));
}

#[test]
fn ines_rejects_short_header() {
    let bytes = vec![0x4E, 0x45, 0x53, 0x1A, 1, 1];
    assert!(matches!(Ines::from_bytes(&bytes), Err(InesError::HeaderTruncated)));
}

#[test]
fn ines_rejects_truncated_prg() {
    let mut bytes = ines_image(1, 0, 0, 0);
    bytes.truncate(16 + 16 * 1024 - 1);
    assert!(matches!(Ines::from_bytes(&bytes), Err(InesError::PrgIncomplete)));
}

#[test]
fn ines_rejects_truncated_chr() {
    let mut bytes = ines_image(1, 1, 0, 0);
    bytes.truncate(16 + 16 * 1024 + 8 * 1024 - 1);
    assert!(matches!(Ines::from_bytes(&bytes), Err(InesError::ChrIncomplete)));
}

#[test]
fn ines_parses_flag_bytes() {
    let bytes = ines_image(1, 0, 0b1111_0101, 0b1000_0010);
    let ines = Ines::from_bytes(&bytes).unwrap();
    assert!(ines.header.flags6.horizontal_arrangement);
    assert!(!ines.header.flags6.battery_backed_prg_ram);
    assert!(ines.header.flags6.trainer);
    assert!(!ines.header.flags6.four_screen_vram);
    assert_eq!(ines.header.flags6.mapper_lower, 0x0F);
    assert!(!ines.header.flags7.vs_unisystem);
    assert!(ines.header.flags7.playchoice_10);
    assert!(ines.header.flags7.ines_2);
    assert_eq!(ines.header.flags7.mapper_upper, 0x08);
    assert_eq!(ines.header.mapper_number, (0x08 << 4) | 0x0F);
}

#[test]
fn rom_keeps_the_bytes_after_the_header() {
    let mut bytes = vec![0x4E, 0x45, 0x53, 0x1A, 1, 1, 0, 0, 0, 0, 0, 0, 0, 0, 0, 0];
    bytes.extend([9, 8, 7]);
    let rom = Rom::from_bytes(&bytes).unwrap();
    assert_eq!(rom.header.prg_rom_size, 1);
    assert_eq!(rom.data, vec![9, 8, 7]);
}

#[test]
fn rom_rejects_a_bad_identifier() {
    let bytes = vec![0x4E, 0x45, 0x53, 0x00, 1, 1, 0, 0, 0, 0, 0, 0, 0, 0, 0, 0];
    assert!(matches!(Rom::from_bytes(&bytes), Err(RomError::BadIdentifier)));
}

#[test]
fn rom_rejects_a_short_image() {
    let bytes = vec![0x4E, 0x45, 0x53, 0x1A];
    assert!(matches!(Rom::from_bytes(&bytes), Err(RomError::HeaderTruncated)));
}

#[test]
fn rom_header_parses_in_place() {
    let bytes = vec![0x4E, 0x45, 0x53, 0x1A, 2, 1, 0xB1, 0xA0, 3, 0, 0, 0, 0, 0, 0, 0];
    let header = Header::new(&bytes).unwrap();
    assert_eq!(header.prg_rom_size, 2);
    assert_eq!(header.chr_rom_size, 1);
    assert_eq!(header.prg_ram_size, 3);
    assert!(header.flags6.horizontal_arrangement);
    // Mapper number combines flags 7's upper nibble with flags 6's.
    assert_eq!(header.flags6.mapper_lower, 0x0B);
    assert_eq!(header.flags7.mapper_upper, 0x0A);
    assert_eq!(header.mapper_number, 0xAB);
}

#[test]
fn cpu_runs_a_program_from_cartridge_rom() {
    let mut prg = vec![0u8; 0x4000];
    // At $8000: LDA #$07, then ADC #$07, leaving A = $0E.
    prg[0x0000] = 0xA9;
    prg[0x0001] = 0x07;
    prg[0x0002] = 0x69;
    prg[0x0003] = 0x07;
    prg[0x3FFC] = 0x00;
    prg[0x3FFD] = 0x80;
    let mapper = NRomPRG::new(nrom_header(1), prg).unwrap();
    let mut cpu = CPU::new(mapper);
    cpu.power_up().unwrap();
    for _ in 0..2 {
        let opcode = cpu.load_pc().unwrap();
        cpu.execute(opcode).unwrap();
    }
    assert_eq!(cpu.reg_a(), 0x0E);
    assert_eq!(cpu.reg_pc(), 0x8004);
    // A store into cartridge space is a read-only violation.
    assert_eq!(cpu.store(0x8000, 1), Err(MemoryError::ReadOnly(0x8000)));
}
