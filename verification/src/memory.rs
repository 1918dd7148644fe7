//! Byte- and word-addressable memory over a 16-bit address space.
//!
//! A memory is modelled as a flat backing store of bytes together with two
//! partial maps from addresses into that store: where a load reads and where
//! a store writes. Mirrored address ranges are captured by mapping several
//! addresses to the same backing cell; read-only and unmapped ranges by maps
//! that are partial.

use vstd::prelude::*;

verus! {

/// Why a memory access failed.
#[derive(Clone, Copy, Debug, PartialEq, Eq, Structural)]
pub enum MemoryError {
    /// The address does not resolve to any backing storage.
    OutOfRange(u16),
    /// The address resolves to storage that cannot be written.
    ReadOnly(u16),
    /// The address falls in a device region this core does not emulate.
    Unimplemented(u16),
}

/// Byte and little-endian word load/store over a 16-bit address space.
pub trait Memory: Sized {
    /// Invariant every implementation maintains across calls.
    spec fn inv(&self) -> bool;

    /// The flat backing store behind this memory.
    spec fn backing(&self) -> Seq<u8>;

    /// The backing cell a load at `address` reads, if the address is readable.
    spec fn read_index(&self, address: u16) -> Option<int>;

    /// The backing cell a store at `address` writes, if the address is writable.
    spec fn write_index(&self, address: u16) -> Option<int>;

    /// Every address that resolves at all resolves to a cell inside the
    /// backing store.
    proof fn indices_in_bounds(&self, address: u16)
        requires
            self.inv(),
        ensures
            self.read_index(address) is Some ==> 0 <= self.read_index(address)->Some_0
                < self.backing().len(),
            self.write_index(address) is Some ==> 0 <= self.write_index(address)->Some_0
                < self.backing().len(),
    ;

    fn load(&self, address: u16) -> (r: Result<u8, MemoryError>)
        requires
            self.inv(),
        ensures
            r is Ok <==> self.read_index(address) is Some,
            r is Ok ==> {
                let i = self.read_index(address)->Some_0;
                &&& 0 <= i < self.backing().len()
                &&& r->Ok_0 == self.backing()[i]
            },
    ;

    fn store(&mut self, address: u16, value: u8) -> (r: Result<(), MemoryError>)
        requires
            old(self).inv(),
        ensures
            final(self).inv(),
            r is Ok <==> old(self).write_index(address) is Some,
            final(self).backing().len() == old(self).backing().len(),
            forall|a: u16| final(self).read_index(a) == old(self).read_index(a),
            forall|a: u16| final(self).write_index(a) == old(self).write_index(a),
            r is Ok ==> {
                let i = old(self).write_index(address)->Some_0;
                &&& 0 <= i < old(self).backing().len()
                &&& final(self).backing() == old(self).backing().update(i, value)
            },
            r is Err ==> final(self).backing() == old(self).backing(),
    ;

    /// Loads the little-endian word whose low byte sits at `address`.
    fn loadw(&self, address: u16) -> (r: Result<u16, MemoryError>)
        requires
            self.inv(),
            address < 0xFFFF,
        ensures
            r is Ok <==> self.read_index(address) is Some && self.read_index(
                (address + 1) as u16,
            ) is Some,
            r is Ok ==> r->Ok_0 == self.backing()[self.read_index(address)->Some_0] + 256
                * self.backing()[self.read_index((address + 1) as u16)->Some_0],
    {
        let low = match self.load(address) {
            Ok(v) => v,
            Err(e) => {
                return Err(e);
            },
        };
        let high = match self.load(address + 1) {
            Ok(v) => v,
            Err(e) => {
                return Err(e);
            },
        };
        Ok(low as u16 + high as u16 * 256)
    }

    /// Stores `value` as a little-endian word: low byte at `address`, high
    /// byte at `address + 1`.
    fn storew(&mut self, address: u16, value: u16) -> (r: Result<(), MemoryError>)
        requires
            old(self).inv(),
            address < 0xFFFF,
        ensures
            final(self).inv(),
            r is Ok <==> old(self).write_index(address) is Some && old(self).write_index(
                (address + 1) as u16,
            ) is Some,
            final(self).backing().len() == old(self).backing().len(),
            forall|a: u16| final(self).read_index(a) == old(self).read_index(a),
            forall|a: u16| final(self).write_index(a) == old(self).write_index(a),
            r is Ok ==> final(self).backing() == old(self).backing().update(
                old(self).write_index(address)->Some_0,
                (value % 256) as u8,
            ).update(old(self).write_index((address + 1) as u16)->Some_0, (value / 256) as u8),
            old(self).write_index(address) is None ==> final(self).backing() == old(
                self,
            ).backing(),
            old(self).write_index(address) is Some && old(self).write_index(
                (address + 1) as u16,
            ) is None ==> final(self).backing() == old(self).backing().update(
                old(self).write_index(address)->Some_0,
                (value % 256) as u8,
            ),
    {
        match self.store(address, (value % 256) as u8) {
            Ok(()) => (),
            Err(e) => {
                return Err(e);
            },
        };
        self.store(address + 1, (value / 256) as u8)
    }
}

/// The byte a load at `address` returns, when `m.read_index(address)` is
/// `Some` of a cell inside the backing store.
pub open spec fn byte_at<M: Memory>(m: M, address: u16) -> u8 {
    m.backing()[m.read_index(address)->Some_0]
}

/// The little-endian word whose low byte sits at `address`.
pub open spec fn word_at<M: Memory>(m: M, address: u16) -> u16
    recommends
        address < 0xFFFF,
{
    (byte_at(m, address) + 256 * byte_at(m, (address + 1) as u16)) as u16
}

/// Fixed contents; every store fails.
pub struct ReadOnlyMemory {
    data: Vec<u8>,
}

impl ReadOnlyMemory {
    pub fn new(data: Vec<u8>) -> (m: ReadOnlyMemory)
        ensures
            m.inv(),
            m.backing() == data@,
    {
        ReadOnlyMemory { data }
    }
}

impl Memory for ReadOnlyMemory {
    closed spec fn inv(&self) -> bool {
        true
    }

    closed spec fn backing(&self) -> Seq<u8> {
        self.data@
    }

    closed spec fn read_index(&self, address: u16) -> Option<int> {
        if (address as int) < self.data@.len() {
            Some(address as int)
        } else {
            None
        }
    }

    closed spec fn write_index(&self, address: u16) -> Option<int> {
        None
    }

    proof fn indices_in_bounds(&self, address: u16) {
    }

    fn load(&self, address: u16) -> (r: Result<u8, MemoryError>) {
        if (address as usize) < self.data.len() {
            Ok(self.data[address as usize])
        } else {
            Err(MemoryError::OutOfRange(address))
        }
    }

    fn store(&mut self, address: u16, value: u8) -> (r: Result<(), MemoryError>) {
        Err(MemoryError::ReadOnly(address))
    }
}

/// Mutable memory of a fixed size, zero-filled at construction.
pub struct ReadWriteMemory {
    data: Vec<u8>,
}

impl ReadWriteMemory {
    pub fn new(capacity: usize) -> (m: ReadWriteMemory)
        ensures
            m.inv(),
            m.backing().len() == capacity,
            forall|i: int| 0 <= i < capacity ==> m.backing()[i] == 0u8,
    {
        let mut data: Vec<u8> = Vec::new();
        while data.len() < capacity
            invariant
                data@.len() <= capacity,
                forall|i: int| 0 <= i < data@.len() ==> data@[i] == 0u8,
            decreases capacity - data@.len(),
        {
            data.push(0);
        }
        ReadWriteMemory { data }
    }
}

impl Memory for ReadWriteMemory {
    closed spec fn inv(&self) -> bool {
        true
    }

    closed spec fn backing(&self) -> Seq<u8> {
        self.data@
    }

    closed spec fn read_index(&self, address: u16) -> Option<int> {
        if (address as int) < self.data@.len() {
            Some(address as int)
        } else {
            None
        }
    }

    closed spec fn write_index(&self, address: u16) -> Option<int> {
        if (address as int) < self.data@.len() {
            Some(address as int)
        } else {
            None
        }
    }

    proof fn indices_in_bounds(&self, address: u16) {
    }

    fn load(&self, address: u16) -> (r: Result<u8, MemoryError>) {
        if (address as usize) < self.data.len() {
            Ok(self.data[address as usize])
        } else {
            Err(MemoryError::OutOfRange(address))
        }
    }

    fn store(&mut self, address: u16, value: u8) -> (r: Result<(), MemoryError>) {
        if (address as usize) < self.data.len() {
            self.data[address as usize] = value;
            Ok(())
        } else {
            Err(MemoryError::OutOfRange(address))
        }
    }
}

/// How read-only memory resolves addresses: every address below the size
/// reads its own cell, and nothing is writable.
pub proof fn rom_resolves(m: &ReadOnlyMemory)
    ensures
        m.inv(),
        forall|a: u16|
            m.read_index(a) == (if (a as int) < m.backing().len() {
                Some(a as int)
            } else {
                None::<int>
            }),
        forall|a: u16| m.write_index(a) == None::<int>,
{
}

/// How read-write memory resolves addresses: every address below the size
/// reads and writes its own cell.
pub proof fn ram_resolves(m: &ReadWriteMemory)
    ensures
        m.inv(),
        forall|a: u16|
            m.read_index(a) == (if (a as int) < m.backing().len() {
                Some(a as int)
            } else {
                None::<int>
            }),
        forall|a: u16| m.write_index(a) == m.read_index(a),
{
}

/// A word load after a successful word store at the same address returns the
/// stored word, whenever loads and stores at the two addresses resolve to the
/// same two distinct cells — as they do in read-write memory and in the
/// mirrored RAM ranges of the system bus.
pub proof fn lemma_store_word_round_trip<M: Memory>(pre: M, post: M, address: u16, w: u16)
    requires
        address < 0xFFFF,
        pre.write_index(address) is Some,
        pre.write_index((address + 1) as u16) is Some,
        pre.read_index(address) == pre.write_index(address),
        pre.read_index((address + 1) as u16) == pre.write_index((address + 1) as u16),
        pre.write_index(address)->Some_0 != pre.write_index((address + 1) as u16)->Some_0,
        0 <= pre.write_index(address)->Some_0 < pre.backing().len(),
        0 <= pre.write_index((address + 1) as u16)->Some_0 < pre.backing().len(),
        post.backing() == pre.backing().update(
            pre.write_index(address)->Some_0,
            (w % 256) as u8,
        ).update(pre.write_index((address + 1) as u16)->Some_0, (w / 256) as u8),
        forall|a: u16| post.read_index(a) == pre.read_index(a),
    ensures
        word_at(post, address) == w,
{
    assert(byte_at(post, address) == (w % 256) as u8);
    assert(byte_at(post, (address + 1) as u16) == (w / 256) as u8);
    assert(w % 256 + 256 * (w / 256) == w) by {
        vstd::arithmetic::div_mod::lemma_fundamental_div_mod(w as int, 256);
    };
}

/// The word round-trip law at the read-write memory itself: after a
/// successful `storew` of `w` at `address`, `loadw` at `address` returns
/// `w`.
pub proof fn lemma_ram_word_round_trip(
    pre: ReadWriteMemory,
    post: ReadWriteMemory,
    address: u16,
    w: u16,
)
    requires
        address < 0xFFFF,
        address + 1 < pre.backing().len(),
        post.backing() == pre.backing().update(address as int, (w % 256) as u8).update(
            address + 1,
            (w / 256) as u8,
        ),
    ensures
        word_at(post, address) == w,
{
    ram_resolves(&pre);
    ram_resolves(&post);
    lemma_store_word_round_trip(pre, post, address, w);
}

} // verus!
