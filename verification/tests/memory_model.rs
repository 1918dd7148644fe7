use nes_core::memory::{Memory, MemoryError, ReadOnlyMemory, ReadWriteMemory};

#[test]
fn read_write_memory_starts_zeroed() {
    let m = ReadWriteMemory::new(8);
    for a in 0..8u16 {
        assert_eq!(m.load(a), Ok(0));
    }
}

#[test]
fn read_write_memory_store_then_load() {
    let mut m = ReadWriteMemory::new(16);
    assert_eq!(m.store(3, 0x5A), Ok(()));
    assert_eq!(m.load(3), Ok(0x5A));
    assert_eq!(m.load(4), Ok(0));
}

#[test]
fn read_write_memory_out_of_range() {
    let mut m = ReadWriteMemory::new(4);
    assert_eq!(m.load(4), Err(MemoryError::OutOfRange(4)));
    assert_eq!(m.store(9, 1), Err(MemoryError::OutOfRange(9)));
}

#[test]
fn word_round_trip_in_ram() {
    let mut m = ReadWriteMemory::new(0x100);
    assert_eq!(m.storew(0x10, 0xABCD), Ok(()));
    assert_eq!(m.loadw(0x10), Ok(0xABCD));
    assert_eq!(m.load(0x10), Ok(0xCD));
    assert_eq!(m.load(0x11), Ok(0xAB));
}

#[test]
fn word_round_trip_at_the_bottom() {
    let mut m = ReadWriteMemory::new(0x100);
    assert_eq!(m.storew(0, 0x0180), Ok(()));
    assert_eq!(m.loadw(0), Ok(0x0180));
}

#[test]
fn word_store_out_of_range() {
    let mut m = ReadWriteMemory::new(4);
    assert_eq!(m.storew(3, 0x1234), Err(MemoryError::OutOfRange(4)));
    // The low byte at address 3 was stored before the failure surfaced.
    assert_eq!(m.load(3), Ok(0x34));
}

#[test]
fn read_only_memory_loads_and_refuses_stores() {
    let mut m = ReadOnlyMemory::new(vec![1, 2, 3]);
    assert_eq!(m.load(0), Ok(1));
    assert_eq!(m.load(2), Ok(3));
    assert_eq!(m.load(3), Err(MemoryError::OutOfRange(3)));
    assert_eq!(m.store(1, 7), Err(MemoryError::ReadOnly(1)));
    assert_eq!(m.load(1), Ok(2));
}
