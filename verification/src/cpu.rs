//! The 6502 instruction engine: the register file and status-flag algebra,
//! the system bus that routes every load and store (internal RAM with
//! mirroring, unimplemented device regions, cartridge space), and the
//! fetch-decode-execute cycle with per-instruction semantics.

use vstd::prelude::*;

use crate::memory::{byte_at, Memory, MemoryError, ReadWriteMemory, ram_resolves, word_at};

verus! {

/// Address of the reset vector: `power_up` loads the program counter from
/// the little-endian word stored here.
pub const RESET_VECTOR: u16 = 0xFFFC;

/// Address of the interrupt vector: `brk` loads the program counter from
/// the little-endian word stored here.
pub const IRQ_VECTOR: u16 = 0xFFFE;

/// Why execution stopped.
#[derive(Clone, Copy, Debug, PartialEq, Eq, Structural)]
pub enum CpuError {
    /// A load or store could not be routed; the payload says why.
    Memory(MemoryError),
    /// The opcode is not in the instruction table, so the operand length is
    /// unknown and execution cannot safely continue.
    UnsupportedOpcode(u8),
}

/// CPU status flags, one bit each in the packed status register.
#[derive(Clone, Copy, Debug, PartialEq, Eq, Structural)]
pub enum Flag {
    /// Addition or shift carried, or subtraction did not borrow.
    Carry,
    /// The last operation's result was 0.
    Zero,
    /// IRQ interrupts are inhibited (NMI still allowed).
    Irq,
    /// Decimal mode (kept as a flag; it does not alter arithmetic here).
    Decimal,
    /// A software interrupt pushed this status byte.
    Break,
    /// The last ADC resulted in signed overflow.
    Overflow,
    /// Bit 7 of the last operation's result was set.
    Negative,
}

impl Flag {
    /// The bit this flag occupies in the packed status byte.
    pub open spec fn spec_mask(self) -> u8 {
        match self {
            Flag::Carry => 0x01,
            Flag::Zero => 0x02,
            Flag::Irq => 0x04,
            Flag::Decimal => 0x08,
            Flag::Break => 0x10,
            Flag::Overflow => 0x40,
            Flag::Negative => 0x80,
        }
    }

    /// The bit this flag occupies in the packed status byte.
    pub fn mask(self) -> (r: u8)
        ensures
            r == self.spec_mask(),
    {
        match self {
            Flag::Carry => 0x01,
            Flag::Zero => 0x02,
            Flag::Irq => 0x04,
            Flag::Decimal => 0x08,
            Flag::Break => 0x10,
            Flag::Overflow => 0x40,
            Flag::Negative => 0x80,
        }
    }
}

/// Setting or clearing one mask bit in a byte: what it does to the masked
/// bit itself and to any bit group disjoint from the mask.
proof fn lemma_bit_update(s: u8, m: u8, b: u8)
    by (bit_vector)
    ensures
        m & b == 0 ==> ((s | m) & b) == (s & b),
        m & b == 0 ==> ((s & !m) & b) == (s & b),
        (s | m) & m == m,
        (s & !m) & m == 0,
{
}

/// The flag masks are seven distinct one-bit values, so any two distinct
/// masks are disjoint.
proof fn lemma_flag_masks_disjoint(f: Flag, g: Flag)
    ensures
        f.spec_mask() != 0,
        f != g ==> f.spec_mask() & g.spec_mask() == 0,
{
    assert forall|m: u8, b: u8|
        (m == 1 || m == 2 || m == 4 || m == 8 || m == 0x10 || m == 0x40 || m == 0x80) && (b == 1
            || b == 2 || b == 4 || b == 8 || b == 0x10 || b == 0x40 || b == 0x80) && m != b
            implies #[trigger] (m & b) == 0 by {
        assert((m == 1 || m == 2 || m == 4 || m == 8 || m == 0x10 || m == 0x40 || m == 0x80) && (b
            == 1 || b == 2 || b == 4 || b == 8 || b == 0x10 || b == 0x40 || b == 0x80) && m != b
            ==> (m & b) == 0) by (bit_vector);
    }
}

/// No flag mask touches bit 5 of the status byte (the unused bit).
proof fn lemma_mask_bit5(f: Flag)
    ensures
        f.spec_mask() & 0x20 == 0,
{
    assert((1u8 & 0x20 == 0) && (2u8 & 0x20 == 0) && (4u8 & 0x20 == 0) && (8u8 & 0x20 == 0) && (
    0x10u8 & 0x20 == 0) && (0x40u8 & 0x20 == 0) && (0x80u8 & 0x20 == 0)) by (bit_vector);
}

/// The CPU register file.
struct Registers {
    a: u8,
    x: u8,
    y: u8,
    s: u8,
    pc: u16,
    status: u8,
}

/// Ghost view of the register file apart from the status byte.
pub ghost struct Regs {
    pub a: u8,
    pub x: u8,
    pub y: u8,
    pub s: u8,
    pub pc: u16,
}

/// Model of the 6502 microprocessor: the register file, 2 KB of internal
/// RAM, and the cartridge handed in at construction. The CPU itself
/// implements `Memory` as the system bus over those two stores.
pub struct CPU<M: Memory> {
    registers: Registers,
    ram: ReadWriteMemory,
    cartridge: M,
}

impl<M: Memory> CPU<M> {
    /// The accumulator.
    pub closed spec fn a(&self) -> u8 {
        self.registers.a
    }

    /// The X index register.
    pub closed spec fn x(&self) -> u8 {
        self.registers.x
    }

    /// The Y index register.
    pub closed spec fn y(&self) -> u8 {
        self.registers.y
    }

    /// The stack pointer.
    pub closed spec fn s(&self) -> u8 {
        self.registers.s
    }

    /// The program counter.
    pub closed spec fn pc(&self) -> u16 {
        self.registers.pc
    }

    /// The packed status byte.
    pub closed spec fn status(&self) -> u8 {
        self.registers.status
    }

    /// The register file apart from the status byte.
    pub open spec fn regs(&self) -> Regs {
        Regs { a: self.a(), x: self.x(), y: self.y(), s: self.s(), pc: self.pc() }
    }

    /// The cartridge currently on the bus.
    pub closed spec fn cart(&self) -> M {
        self.cartridge
    }

    /// Whether `flag` is set in the status register.
    pub open spec fn flag_set(&self, flag: Flag) -> bool {
        self.status() & flag.spec_mask() != 0
    }

    /// The Carry flag.
    pub open spec fn carry(&self) -> bool {
        self.flag_set(Flag::Carry)
    }

    /// The Zero flag.
    pub open spec fn zero(&self) -> bool {
        self.flag_set(Flag::Zero)
    }

    /// The IRQ-disable flag.
    pub open spec fn irq_disable(&self) -> bool {
        self.flag_set(Flag::Irq)
    }

    /// The Decimal flag.
    pub open spec fn decimal(&self) -> bool {
        self.flag_set(Flag::Decimal)
    }

    /// The Break flag.
    pub open spec fn break_flag(&self) -> bool {
        self.flag_set(Flag::Break)
    }

    /// The Overflow flag.
    pub open spec fn overflow(&self) -> bool {
        self.flag_set(Flag::Overflow)
    }

    /// The Negative flag.
    pub open spec fn negative(&self) -> bool {
        self.flag_set(Flag::Negative)
    }
}

/// RAM and cartridge hold exactly the same values in `post` as in `pre`.
pub closed spec fn mem_equal<M: Memory>(pre: CPU<M>, post: CPU<M>) -> bool {
    &&& post.ram == pre.ram
    &&& post.cartridge == pre.cartridge
}

/// The bus resolves addresses in `post` as in `pre` and its backing bytes
/// are unchanged (though a failed cartridge store may have been attempted).
pub open spec fn bus_preserved<M: Memory>(pre: CPU<M>, post: CPU<M>) -> bool {
    &&& post.backing() == pre.backing()
    &&& forall|a: u16| post.read_index(a) == pre.read_index(a)
    &&& forall|a: u16| post.write_index(a) == pre.write_index(a)
}

/// `post`'s bus holds `pre`'s bytes with exactly one successful store of
/// `value` at `address` applied.
pub open spec fn bus_stored<M: Memory>(pre: CPU<M>, post: CPU<M>, address: u16, value: u8) -> bool {
    &&& pre.write_index(address) is Some
    &&& 0 <= pre.write_index(address)->Some_0 < pre.backing().len()
    &&& post.backing() == pre.backing().update(pre.write_index(address)->Some_0, value)
    &&& forall|a: u16| post.read_index(a) == pre.read_index(a)
    &&& forall|a: u16| post.write_index(a) == pre.write_index(a)
}

/// `post`'s bus holds `pre`'s bytes with two successful stores applied, in
/// order: `v1` at `address1`, then `v2` at `address2`.
pub open spec fn bus_stored2<M: Memory>(
    pre: CPU<M>,
    post: CPU<M>,
    address1: u16,
    v1: u8,
    address2: u16,
    v2: u8,
) -> bool {
    &&& pre.write_index(address1) is Some
    &&& pre.write_index(address2) is Some
    &&& 0 <= pre.write_index(address1)->Some_0 < pre.backing().len()
    &&& 0 <= pre.write_index(address2)->Some_0 < pre.backing().len()
    &&& post.backing() == pre.backing().update(pre.write_index(address1)->Some_0, v1).update(
        pre.write_index(address2)->Some_0,
        v2,
    )
    &&& forall|a: u16| post.read_index(a) == pre.read_index(a)
    &&& forall|a: u16| post.write_index(a) == pre.write_index(a)
}

/// Bit 5 of the status byte — the bit no flag occupies — is unchanged.
pub open spec fn bit5_same<M: Memory>(pre: CPU<M>, post: CPU<M>) -> bool {
    post.status() & 0x20 == pre.status() & 0x20
}

/// Carry, overflow, IRQ-disable, decimal, break and the unused bit are
/// unchanged.
pub open spec fn flags_same_except_zn<M: Memory>(pre: CPU<M>, post: CPU<M>) -> bool {
    &&& post.carry() == pre.carry()
    &&& post.overflow() == pre.overflow()
    &&& post.irq_disable() == pre.irq_disable()
    &&& post.decimal() == pre.decimal()
    &&& post.break_flag() == pre.break_flag()
    &&& bit5_same(pre, post)
}

/// Overflow, IRQ-disable, decimal, break and the unused bit are unchanged.
pub open spec fn flags_same_except_czn<M: Memory>(pre: CPU<M>, post: CPU<M>) -> bool {
    &&& post.overflow() == pre.overflow()
    &&& post.irq_disable() == pre.irq_disable()
    &&& post.decimal() == pre.decimal()
    &&& post.break_flag() == pre.break_flag()
    &&& bit5_same(pre, post)
}

/// IRQ-disable, decimal, break and the unused bit are unchanged.
pub open spec fn flags_same_except_cvzn<M: Memory>(pre: CPU<M>, post: CPU<M>) -> bool {
    &&& post.irq_disable() == pre.irq_disable()
    &&& post.decimal() == pre.decimal()
    &&& post.break_flag() == pre.break_flag()
    &&& bit5_same(pre, post)
}

impl<M: Memory> Memory for CPU<M> {
    /// The RAM behind the bus is the full 2 KB and the cartridge meets its
    /// own invariant.
    closed spec fn inv(&self) -> bool {
        &&& self.ram.inv()
        &&& self.ram.backing().len() == 0x800
        &&& self.cartridge.inv()
    }

    /// RAM cells first, then the cartridge's backing store.
    closed spec fn backing(&self) -> Seq<u8> {
        self.ram.backing() + self.cartridge.backing()
    }

    closed spec fn read_index(&self, address: u16) -> Option<int> {
        if address < 0x2000 {
            self.ram.read_index(address % 0x800)
        } else if address < 0x4020 {
            None
        } else {
            match self.cartridge.read_index(address) {
                Some(i) => Some(self.ram.backing().len() + i),
                None => None,
            }
        }
    }

    closed spec fn write_index(&self, address: u16) -> Option<int> {
        if address < 0x2000 {
            self.ram.write_index(address % 0x800)
        } else if address < 0x4020 {
            None
        } else {
            match self.cartridge.write_index(address) {
                Some(i) => Some(self.ram.backing().len() + i),
                None => None,
            }
        }
    }

    proof fn indices_in_bounds(&self, address: u16) {
        ram_resolves(&self.ram);
        self.cartridge.indices_in_bounds(address);
    }

    /// Routes a load: internal RAM (mirrored every $0800) below $2000, the
    /// unimplemented PPU/APU regions up to $401F, cartridge space above. A
    /// load in a device region fails with the distinguishable
    /// `Unimplemented` condition, never with a stale byte.
    fn load(&self, address: u16) -> (r: Result<u8, MemoryError>)
        ensures
            0x2000 <= address < 0x4020 ==> r == Err::<u8, MemoryError>(
                MemoryError::Unimplemented(address),
            ),
    {
        if address < 0x2000 {
            proof {
                ram_resolves(&self.ram);
            }
            match self.ram.load(address % 0x800) {
                Ok(v) => {
                    proof {
                        let i = self.ram.read_index(address % 0x800)->Some_0;
                        assert(self.backing()[i] == self.ram.backing()[i]);
                    }
                    Ok(v)
                },
                Err(e) => Err(e),
            }
        } else if address < 0x4020 {
            Err(MemoryError::Unimplemented(address))
        } else {
            match self.cartridge.load(address) {
                Ok(v) => {
                    proof {
                        let i = self.cartridge.read_index(address)->Some_0;
                        assert(self.backing()[self.ram.backing().len() + i]
                            == self.cartridge.backing()[i]);
                    }
                    Ok(v)
                },
                Err(e) => Err(e),
            }
        }
    }

    /// Routes a store exactly as `load` routes a load. No register is
    /// touched, and a store in a device region fails with the
    /// distinguishable `Unimplemented` condition rather than being dropped.
    fn store(&mut self, address: u16, value: u8) -> (r: Result<(), MemoryError>)
        ensures
            final(self).regs() == old(self).regs(),
            final(self).status() == old(self).status(),
            0x2000 <= address < 0x4020 ==> r == Err::<(), MemoryError>(
                MemoryError::Unimplemented(address),
            ),
    {
        self.bus_store(address, value)
    }
}

impl<M: Memory> CPU<M> {
    /// Routes a store exactly as `load` routes a load, and leaves every
    /// register untouched.
    fn bus_store(&mut self, address: u16, value: u8) -> (r: Result<(), MemoryError>)
        requires
            old(self).inv(),
        ensures
            final(self).inv(),
            final(self).regs() == old(self).regs(),
            final(self).status() == old(self).status(),
            r is Ok <==> old(self).write_index(address) is Some,
            final(self).backing().len() == old(self).backing().len(),
            forall|a: u16| final(self).read_index(a) == old(self).read_index(a),
            forall|a: u16| final(self).write_index(a) == old(self).write_index(a),
            r is Ok ==> bus_stored(*old(self), *final(self), address, value),
            r is Err ==> final(self).backing() == old(self).backing(),
            0x2000 <= address < 0x4020 ==> r == Err::<(), MemoryError>(
                MemoryError::Unimplemented(address),
            ),
    {
        if address < 0x2000 {
            proof {
                ram_resolves(&self.ram);
            }
            let r = self.ram.store(address % 0x800, value);
            proof {
                if r is Ok {
                    let i = old(self).ram.write_index(address % 0x800)->Some_0;
                    assert(self.backing() =~= old(self).backing().update(i, value));
                }
            }
            r
        } else if address < 0x4020 {
            Err(MemoryError::Unimplemented(address))
        } else {
            let r = self.cartridge.store(address, value);
            proof {
                if r is Ok {
                    let i = old(self).cartridge.write_index(address)->Some_0;
                    assert(self.backing() =~= old(self).backing().update(
                        old(self).ram.backing().len() + i,
                        value,
                    ));
                } else {
                    assert(self.backing() =~= old(self).backing());
                }
            }
            r
        }
    }
}

/// How the bus resolves addresses: RAM below $2000 mirrored every $0800,
/// nothing in the device regions up to $401F, and the cartridge's own
/// resolution (shifted past the RAM cells) from $4020 up.
pub proof fn bus_resolves<M: Memory>(cpu: &CPU<M>)
    requires
        cpu.inv(),
    ensures
        cpu.cart().inv(),
        forall|a: u16|
            a < 0x2000 ==> cpu.read_index(a) == Some((a % 0x800) as int) && cpu.write_index(a)
                == Some((a % 0x800) as int),
        forall|a: u16|
            0x2000 <= a < 0x4020 ==> cpu.read_index(a) is None && cpu.write_index(a) is None,
        forall|a: u16|
            a >= 0x4020 ==> cpu.read_index(a) == (match cpu.cart().read_index(a) {
                Some(i) => Some(0x800 + i),
                None => None,
            }) && cpu.write_index(a) == (match cpu.cart().write_index(a) {
                Some(i) => Some(0x800 + i),
                None => None,
            }),
        cpu.backing().len() == 0x800 + cpu.cart().backing().len(),
        forall|a: u16|
            a >= 0x4020 && cpu.cart().read_index(a) is Some && 0 <= cpu.cart().read_index(
                a,
            )->Some_0 < cpu.cart().backing().len() ==> byte_at(*cpu, a) == byte_at(cpu.cart(), a),
{
    ram_resolves(&cpu.ram);
    assert forall|a: u16|
        a >= 0x4020 && cpu.cart().read_index(a) is Some && 0 <= cpu.cart().read_index(a)->Some_0
            < cpu.cart().backing().len() implies byte_at(*cpu, a) == byte_at(cpu.cart(), a) by {
        let i = cpu.cart().read_index(a)->Some_0;
        assert(cpu.backing()[0x800 + i] == cpu.cart().backing()[i]);
    }
}

/// Two CPU states related by `mem_equal` present the same bus: the backing
/// bytes and both resolution maps coincide, so every `byte_at` is preserved.
/// This is the bridge from the instruction contracts' `mem_equal` clauses to
/// statements about single bytes.
pub proof fn lemma_mem_equal_bus<M: Memory>(c1: CPU<M>, c2: CPU<M>)
    requires
        mem_equal(c1, c2),
    ensures
        c2.backing() == c1.backing(),
        forall|a: u16| c2.read_index(a) == c1.read_index(a),
        forall|a: u16| c2.write_index(a) == c1.write_index(a),
        forall|a: u16| byte_at(c2, a) == byte_at(c1, a),
        c2.inv() == c1.inv(),
        c2.cart() == c1.cart(),
{
}

/// The stack lives in page 1: slot `s` is at $0100 | s.
pub open spec fn stack_addr(s: u8) -> u16 {
    (0x100 + s as u16) as u16
}

/// The little-endian word at the program counter (wrapping at the top of the
/// address space), as fetched for two-byte operands.
pub open spec fn fetch_word<M: Memory>(pre: CPU<M>) -> u16 {
    (byte_at(pre, pre.pc()) + 256 * byte_at(pre, pre.pc().wrapping_add(1))) as u16
}

/// ORing the page-1 base into an 8-bit stack pointer is plain addition.
proof fn lemma_stack_addr_bits(s: u8)
    by (bit_vector)
    ensures
        (s as u16 | 0x100) == 0x100 + s as u16,
{
}

/// `push` stores the value at $0100 | S and decrements S; the rest of the
/// machine is untouched.
pub open spec fn push_rel<M: Memory>(pre: CPU<M>, post: CPU<M>, value: u8) -> bool {
    &&& post.inv()
    &&& post.regs() == (Regs { s: pre.s().wrapping_sub(1), ..pre.regs() })
    &&& post.status() == pre.status()
    &&& bus_stored(pre, post, stack_addr(pre.s()), value)
}

/// `pull` increments S and loads the byte at $0100 | S; the rest of the
/// machine is untouched.
pub open spec fn pull_rel<M: Memory>(pre: CPU<M>, post: CPU<M>, value: u8) -> bool {
    &&& post.inv()
    &&& post.regs() == (Regs { s: pre.s().wrapping_add(1), ..pre.regs() })
    &&& post.status() == pre.status()
    &&& mem_equal(pre, post)
    &&& value == byte_at(pre, stack_addr(pre.s().wrapping_add(1)))
}

/// `pushw` pushes the high byte, then the low byte, so the low byte sits at
/// the lower stack address.
pub open spec fn pushw_rel<M: Memory>(pre: CPU<M>, post: CPU<M>, value: u16) -> bool {
    &&& post.inv()
    &&& post.regs() == (Regs { s: pre.s().wrapping_sub(2), ..pre.regs() })
    &&& post.status() == pre.status()
    &&& bus_stored2(
        pre,
        post,
        stack_addr(pre.s()),
        (value / 256) as u8,
        stack_addr(pre.s().wrapping_sub(1)),
        (value % 256) as u8,
    )
}

/// `pullw` pulls the low byte, then the high byte, of a little-endian word.
pub open spec fn pullw_rel<M: Memory>(pre: CPU<M>, post: CPU<M>, value: u16) -> bool {
    &&& post.inv()
    &&& post.regs() == (Regs { s: pre.s().wrapping_add(2), ..pre.regs() })
    &&& post.status() == pre.status()
    &&& mem_equal(pre, post)
    &&& value == byte_at(pre, stack_addr(pre.s().wrapping_add(1))) + 256 * byte_at(
        pre,
        stack_addr(pre.s().wrapping_add(2)),
    )
}

impl<M: Memory> CPU<M> {
    /// A CPU over `cartridge` with zeroed registers and zero-filled RAM.
    pub fn new(cartridge: M) -> (r: CPU<M>)
        requires
            cartridge.inv(),
        ensures
            r.inv(),
            r.regs() == (Regs { a: 0, x: 0, y: 0, s: 0, pc: 0 }),
            r.status() == 0,
            r.cart() == cartridge,
            r.backing().len() == 0x800 + cartridge.backing().len(),
            forall|i: int| 0 <= i < 0x800 ==> r.backing()[i] == 0u8,
            forall|i: int|
                0x800 <= i < r.backing().len() ==> r.backing()[i] == cartridge.backing()[i - 0x800],
    {
        let cpu = CPU {
            registers: Registers { a: 0, x: 0, y: 0, s: 0, pc: 0, status: 0 },
            ram: ReadWriteMemory::new(0x800),
            cartridge,
        };
        proof {
            assert forall|i: int| 0 <= i < 0x800 implies cpu.backing()[i] == 0u8 by {
                assert(cpu.backing()[i] == cpu.ram.backing()[i]);
            }
        }
        cpu
    }

    /// Sets or clears one status flag, leaving the other flags and every
    /// other register and all memory untouched.
    pub fn set_status(&mut self, flag: Flag, value: bool)
        ensures
            final(self).regs() == old(self).regs(),
            mem_equal(*old(self), *final(self)),
            final(self).inv() == old(self).inv(),
            final(self).status() == (if value {
                old(self).status() | flag.spec_mask()
            } else {
                old(self).status() & !flag.spec_mask()
            }),
            final(self).flag_set(flag) == value,
            forall|f: Flag| f != flag ==> final(self).flag_set(f) == old(self).flag_set(f),
            bit5_same(*old(self), *final(self)),
    {
        let m = flag.mask();
        if value {
            self.registers.status = self.registers.status | m;
        } else {
            self.registers.status = self.registers.status & !m;
        }
        proof {
            lemma_flag_masks_disjoint(flag, flag);
            lemma_bit_update(old(self).status(), flag.spec_mask(), flag.spec_mask());
            lemma_mask_bit5(flag);
            lemma_bit_update(old(self).status(), flag.spec_mask(), 0x20);
            assert forall|f: Flag| f != flag implies self.flag_set(f) == old(self).flag_set(f) by {
                lemma_flag_masks_disjoint(flag, f);
                lemma_bit_update(old(self).status(), flag.spec_mask(), f.spec_mask());
            }
        }
    }

    /// Whether `flag` is set in the status register.
    pub fn get_status(&self, flag: Flag) -> (r: bool)
        ensures
            r == self.flag_set(flag),
    {
        self.registers.status & flag.mask() != 0
    }

    /// Sets the Zero and Negative flags from a result byte: Zero iff the
    /// byte is 0, Negative iff its bit 7 is set. Every instruction that
    /// defines Z and N applies this.
    pub fn set_zn(&mut self, value: u8)
        ensures
            final(self).regs() == old(self).regs(),
            mem_equal(*old(self), *final(self)),
            final(self).inv() == old(self).inv(),
            final(self).zero() == (value == 0),
            final(self).negative() == (value & 0x80 != 0),
            flags_same_except_zn(*old(self), *final(self)),
    {
        self.set_status(Flag::Zero, value == 0);
        self.set_status(Flag::Negative, value & 0x80 != 0);
    }

    /// Fetches the byte at the program counter through the bus and advances
    /// the program counter past it.
    pub fn load_pc(&mut self) -> (r: Result<u8, CpuError>)
        requires
            old(self).inv(),
        ensures
            final(self).inv(),
            r is Ok <==> old(self).read_index(old(self).pc()) is Some,
            r is Err ==> *final(self) == *old(self) && r matches Err(CpuError::Memory(_)),
            r is Ok ==> r->Ok_0 == byte_at(*old(self), old(self).pc()) && final(self).regs() == (
            Regs { pc: old(self).pc().wrapping_add(1), ..old(self).regs() }) && final(self).status()
                == old(self).status() && mem_equal(*old(self), *final(self)),
    {
        let value = match self.load(self.registers.pc) {
            Ok(v) => v,
            Err(e) => {
                return Err(CpuError::Memory(e));
            },
        };
        self.registers.pc = self.registers.pc.wrapping_add(1);
        Ok(value)
    }

    /// Returns the program counter and advances it by one: the address of an
    /// immediate operand.
    pub fn get_pc(&mut self) -> (r: u16)
        ensures
            r == old(self).pc(),
            final(self).regs() == (Regs { pc: old(self).pc().wrapping_add(1), ..old(self).regs() }),
            final(self).status() == old(self).status(),
            mem_equal(*old(self), *final(self)),
            final(self).inv() == old(self).inv(),
    {
        let address = self.registers.pc;
        self.registers.pc = self.registers.pc.wrapping_add(1);
        address
    }

    /// Fetches the little-endian word at the program counter and advances
    /// the program counter past both bytes.
    pub fn loadw_pc(&mut self) -> (r: Result<u16, CpuError>)
        requires
            old(self).inv(),
        ensures
            final(self).inv(),
            r is Ok <==> old(self).read_index(old(self).pc()) is Some && old(self).read_index(
                old(self).pc().wrapping_add(1),
            ) is Some,
            r is Ok ==> r->Ok_0 == fetch_word(*old(self)) && final(self).regs() == (Regs {
                pc: old(self).pc().wrapping_add(2),
                ..old(self).regs()
            }) && final(self).status() == old(self).status() && mem_equal(*old(self), *final(self)),
            r is Err ==> (r matches Err(CpuError::Memory(_))) && mem_equal(
                *old(self),
                *final(self),
            ) && final(self).status() == old(self).status() && final(self).a() == old(self).a()
                && final(self).x() == old(self).x() && final(self).y() == old(self).y()
                && final(self).s() == old(self).s(),
            r is Err && old(self).read_index(old(self).pc()) is None ==> *final(self) == *old(self),
            r is Err && old(self).read_index(old(self).pc()) is Some
                ==> final(self).pc() == old(self).pc().wrapping_add(1),
    {
        let low = match self.load_pc() {
            Ok(v) => v,
            Err(e) => {
                return Err(e);
            },
        };
        let high = match self.load_pc() {
            Ok(v) => v,
            Err(e) => {
                return Err(e);
            },
        };
        Ok(low as u16 + high as u16 * 256)
    }

    /// Pushes a byte onto the descending hardware stack in page 1. The
    /// stack pointer wraps at the 8-bit boundary, as on real hardware.
    pub fn push(&mut self, value: u8)
        requires
            old(self).inv(),
        ensures
            push_rel(*old(self), *final(self), value),
    {
        let address = (self.registers.s as u16) | 0x100;
        proof {
            lemma_stack_addr_bits(self.registers.s);
            ram_resolves(&self.ram);
        }
        match self.bus_store(address, value) {
            Ok(()) => (),
            Err(_) => {
                proof {
                    assert(false);
                }
            },
        }
        self.registers.s = self.registers.s.wrapping_sub(1);
    }

    /// Pulls a byte from the stack: increments the stack pointer, then loads
    /// the slot it points at.
    pub fn pull(&mut self) -> (r: u8)
        requires
            old(self).inv(),
        ensures
            pull_rel(*old(self), *final(self), r),
    {
        self.registers.s = self.registers.s.wrapping_add(1);
        let address = (self.registers.s as u16) | 0x100;
        proof {
            lemma_stack_addr_bits(self.registers.s);
            ram_resolves(&self.ram);
        }
        match self.load(address) {
            Ok(v) => v,
            Err(_) => {
                proof {
                    assert(false);
                }
                0
            },
        }
    }

    /// Pushes a word: high byte first, so the low byte sits at the lower
    /// stack address.
    pub fn pushw(&mut self, value: u16)
        requires
            old(self).inv(),
        ensures
            pushw_rel(*old(self), *final(self), value),
    {
        self.push((value / 256) as u8);
        self.push((value % 256) as u8);
    }

    /// Pulls a little-endian word: low byte first.
    pub fn pullw(&mut self) -> (r: u16)
        requires
            old(self).inv(),
        ensures
            pullw_rel(*old(self), *final(self), r),
    {
        let low = self.pull();
        let high = self.pull();
        low as u16 + high as u16 * 256
    }
}

/// After resolving an addressing mode that consumed `n` operand bytes: the
/// program counter moved past them and nothing else changed.
pub open spec fn mode_frame<M: Memory>(pre: CPU<M>, post: CPU<M>, n: u16) -> bool {
    &&& post.inv()
    &&& post.regs() == (Regs { pc: pre.pc().wrapping_add(n), ..pre.regs() })
    &&& post.status() == pre.status()
    &&& mem_equal(pre, post)
}

/// After a failed addressing-mode resolution: memory, flags and registers
/// are untouched, except that the program counter may sit after whichever
/// operand bytes were fetched before the failure.
pub open spec fn mode_err_frame<M: Memory>(pre: CPU<M>, post: CPU<M>) -> bool {
    &&& post.inv()
    &&& mem_equal(pre, post)
    &&& post.status() == pre.status()
    &&& post.a() == pre.a()
    &&& post.x() == pre.x()
    &&& post.y() == pre.y()
    &&& post.s() == pre.s()
}

/// Relative mode's branch target: the operand byte at the program counter is
/// a two's-complement displacement from the address just past it.
pub open spec fn branch_target<M: Memory>(pre: CPU<M>) -> u16 {
    let offset = byte_at(pre, pre.pc());
    let base = pre.pc().wrapping_add(1);
    if offset >= 0x80 {
        base.wrapping_sub((0x100 - offset) as u16)
    } else {
        base.wrapping_add(offset as u16)
    }
}

/// Zero-page mode's effective address: the operand byte, in page 0.
pub open spec fn zp_addr<M: Memory>(pre: CPU<M>) -> u16 {
    byte_at(pre, pre.pc()) as u16
}

/// Zero-page,X mode's effective address: operand plus X, wrapped in page 0.
pub open spec fn zpx_addr<M: Memory>(pre: CPU<M>) -> u16 {
    byte_at(pre, pre.pc()).wrapping_add(pre.x()) as u16
}

/// Zero-page,Y mode's effective address: operand plus Y, wrapped in page 0.
pub open spec fn zpy_addr<M: Memory>(pre: CPU<M>) -> u16 {
    byte_at(pre, pre.pc()).wrapping_add(pre.y()) as u16
}

/// Absolute mode's effective address: the operand word.
pub open spec fn abs_addr<M: Memory>(pre: CPU<M>) -> u16 {
    fetch_word(pre)
}

/// Absolute,X mode's effective address: the operand word plus X.
pub open spec fn absx_addr<M: Memory>(pre: CPU<M>) -> u16 {
    fetch_word(pre).wrapping_add(pre.x() as u16)
}

/// Absolute,Y mode's effective address: the operand word plus Y.
pub open spec fn absy_addr<M: Memory>(pre: CPU<M>) -> u16 {
    fetch_word(pre).wrapping_add(pre.y() as u16)
}

/// Indirect,X mode's effective address: the word the zero-page pointer at
/// operand + X holds.
pub open spec fn indx_addr<M: Memory>(pre: CPU<M>) -> u16 {
    word_at(pre, zpx_addr(pre))
}

/// Indirect,Y mode's effective address: the word the zero-page pointer
/// holds, plus Y.
pub open spec fn indy_addr<M: Memory>(pre: CPU<M>) -> u16 {
    word_at(pre, zp_addr(pre)).wrapping_add(pre.y() as u16)
}

/// The one operand byte at the program counter is readable.
pub open spec fn operand_byte_ok<M: Memory>(pre: CPU<M>) -> bool {
    pre.read_index(pre.pc()) is Some
}

/// Both operand bytes at the program counter are readable.
pub open spec fn operand_word_ok<M: Memory>(pre: CPU<M>) -> bool {
    pre.read_index(pre.pc()) is Some && pre.read_index(pre.pc().wrapping_add(1)) is Some
}

/// The operand byte and the two bytes of the indirect,X pointer are readable.
pub open spec fn indx_mode_ok<M: Memory>(pre: CPU<M>) -> bool {
    &&& operand_byte_ok(pre)
    &&& pre.read_index(zpx_addr(pre)) is Some
    &&& pre.read_index((zpx_addr(pre) + 1) as u16) is Some
}

/// The operand byte and the two bytes of the indirect,Y pointer are readable.
pub open spec fn indy_mode_ok<M: Memory>(pre: CPU<M>) -> bool {
    &&& operand_byte_ok(pre)
    &&& pre.read_index(zp_addr(pre)) is Some
    &&& pre.read_index((zp_addr(pre) + 1) as u16) is Some
}

/// ADC's whole effect, given its resolved operand address and the `n`
/// operand bytes its mode consumed.
pub open spec fn adc_effect<M: Memory>(pre: CPU<M>, post: CPU<M>, address: u16, n: u16) -> bool {
    let m = byte_at(pre, address);
    let sum = pre.a() + m + (if pre.carry() {
        1int
    } else {
        0int
    });
    let result = (sum % 256) as u8;
    &&& post.regs() == (Regs { a: result, pc: pre.pc().wrapping_add(n), ..pre.regs() })
    &&& post.carry() == (sum > 0xFF)
    &&& post.overflow() == ((pre.a() ^ m) & 0x80 == 0 && (pre.a() ^ result) & 0x80 == 0x80)
    &&& post.zero() == (result == 0)
    &&& post.negative() == (result & 0x80 != 0)
    &&& flags_same_except_cvzn(pre, post)
    &&& mem_equal(pre, post)
}

/// The accumulator was set to `v` with Z/N from it, past `n` operand bytes.
pub open spec fn a_zn_effect<M: Memory>(pre: CPU<M>, post: CPU<M>, v: u8, n: u16) -> bool {
    &&& post.regs() == (Regs { a: v, pc: pre.pc().wrapping_add(n), ..pre.regs() })
    &&& post.zero() == (v == 0)
    &&& post.negative() == (v & 0x80 != 0)
    &&& flags_same_except_zn(pre, post)
    &&& mem_equal(pre, post)
}

/// X was set to `v` with Z/N from it, past `n` operand bytes.
pub open spec fn x_zn_effect<M: Memory>(pre: CPU<M>, post: CPU<M>, v: u8, n: u16) -> bool {
    &&& post.regs() == (Regs { x: v, pc: pre.pc().wrapping_add(n), ..pre.regs() })
    &&& post.zero() == (v == 0)
    &&& post.negative() == (v & 0x80 != 0)
    &&& flags_same_except_zn(pre, post)
    &&& mem_equal(pre, post)
}

/// Y was set to `v` with Z/N from it, past `n` operand bytes.
pub open spec fn y_zn_effect<M: Memory>(pre: CPU<M>, post: CPU<M>, v: u8, n: u16) -> bool {
    &&& post.regs() == (Regs { y: v, pc: pre.pc().wrapping_add(n), ..pre.regs() })
    &&& post.zero() == (v == 0)
    &&& post.negative() == (v & 0x80 != 0)
    &&& flags_same_except_zn(pre, post)
    &&& mem_equal(pre, post)
}

/// A compare of register value `reg` against the operand at `address`.
pub open spec fn cmp_effect<M: Memory>(
    pre: CPU<M>,
    post: CPU<M>,
    reg: u8,
    address: u16,
    n: u16,
) -> bool {
    let m = byte_at(pre, address);
    &&& post.regs() == (Regs { pc: pre.pc().wrapping_add(n), ..pre.regs() })
    &&& post.carry() == (reg >= m)
    &&& post.zero() == (reg == m)
    &&& post.negative() == (reg.wrapping_sub(m) & 0x80 != 0)
    &&& flags_same_except_czn(pre, post)
    &&& mem_equal(pre, post)
}

/// BIT's whole effect on the flags; registers and memory are untouched.
pub open spec fn bit_effect<M: Memory>(pre: CPU<M>, post: CPU<M>, address: u16, n: u16) -> bool {
    let m = byte_at(pre, address);
    &&& post.regs() == (Regs { pc: pre.pc().wrapping_add(n), ..pre.regs() })
    &&& post.negative() == (m & 0x80 == 0x80)
    &&& post.overflow() == (m & 0x40 == 0x40)
    &&& post.zero() == (pre.a() & m == 0)
    &&& post.carry() == pre.carry()
    &&& flags_same_except_cvzn(pre, post)
    &&& mem_equal(pre, post)
}

/// ASL in memory: the operand shifted left was stored back, Carry took bit
/// 7 and Z/N follow the result.
pub open spec fn asl_effect<M: Memory>(pre: CPU<M>, post: CPU<M>, address: u16, n: u16) -> bool {
    let m = byte_at(pre, address);
    &&& bus_stored(pre, post, address, m << 1)
    &&& post.regs() == (Regs { pc: pre.pc().wrapping_add(n), ..pre.regs() })
    &&& post.carry() == (m & 0x80 == 0x80)
    &&& post.zero() == (m << 1 == 0)
    &&& post.negative() == ((m << 1) & 0x80 != 0)
    &&& flags_same_except_czn(pre, post)
}

/// LSR in memory: the operand shifted right was stored back, Carry took bit
/// 0 and Z/N follow the result.
pub open spec fn lsr_effect<M: Memory>(pre: CPU<M>, post: CPU<M>, address: u16, n: u16) -> bool {
    let m = byte_at(pre, address);
    &&& bus_stored(pre, post, address, m >> 1)
    &&& post.regs() == (Regs { pc: pre.pc().wrapping_add(n), ..pre.regs() })
    &&& post.carry() == (m & 0x01 == 0x01)
    &&& post.zero() == (m >> 1 == 0)
    &&& post.negative() == ((m >> 1) & 0x80 != 0)
    &&& flags_same_except_czn(pre, post)
}

/// INC in memory: the operand plus one (wrapping) was stored back, with Z/N
/// from the result.
pub open spec fn inc_effect<M: Memory>(pre: CPU<M>, post: CPU<M>, address: u16, n: u16) -> bool {
    let result = byte_at(pre, address).wrapping_add(1);
    &&& bus_stored(pre, post, address, result)
    &&& post.regs() == (Regs { pc: pre.pc().wrapping_add(n), ..pre.regs() })
    &&& post.zero() == (result == 0)
    &&& post.negative() == (result & 0x80 != 0)
    &&& flags_same_except_zn(pre, post)
}

/// DEC in memory: the operand minus one (wrapping) was stored back, with
/// Z/N from the result.
pub open spec fn dec_effect<M: Memory>(pre: CPU<M>, post: CPU<M>, address: u16, n: u16) -> bool {
    let result = byte_at(pre, address).wrapping_sub(1);
    &&& bus_stored(pre, post, address, result)
    &&& post.regs() == (Regs { pc: pre.pc().wrapping_add(n), ..pre.regs() })
    &&& post.zero() == (result == 0)
    &&& post.negative() == (result & 0x80 != 0)
    &&& flags_same_except_zn(pre, post)
}

impl<M: Memory> CPU<M> {
    /// Brings the CPU to its defined power-up state: A = X = Y = 0, S = $FD,
    /// IRQ-disable set, and the program counter loaded from the little-endian
    /// reset vector at $FFFC.
    pub fn power_up(&mut self) -> (r: Result<(), CpuError>)
        requires
            old(self).inv(),
        ensures
            final(self).inv(),
            r is Ok <==> old(self).read_index(0xFFFC) is Some && old(self).read_index(
                0xFFFD,
            ) is Some,
            r is Err ==> *final(self) == *old(self) && (r matches Err(CpuError::Memory(_))),
            r is Ok ==> final(self).regs() == (Regs {
                a: 0,
                x: 0,
                y: 0,
                s: 0xFD,
                pc: word_at(*old(self), 0xFFFC),
            }) && final(self).status() == (old(self).status() | 0x04) && mem_equal(
                *old(self),
                *final(self),
            ),
    {
        let pc = match self.loadw(RESET_VECTOR) {
            Ok(w) => w,
            Err(e) => {
                return Err(CpuError::Memory(e));
            },
        };
        self.registers.a = 0;
        self.registers.x = 0;
        self.registers.y = 0;
        self.registers.s = 0xFD;
        self.registers.pc = pc;
        self.set_status(Flag::Irq, true);
        Ok(())
    }

    /// Power-up with a caller-supplied program counter in place of the reset
    /// vector, for harnesses that enter the program directly.
    pub fn power_up_with_pc_override(&mut self, pc: u16)
        ensures
            final(self).inv() == old(self).inv(),
            final(self).regs() == (Regs { a: 0, x: 0, y: 0, s: 0xFD, pc: pc }),
            final(self).status() == (old(self).status() | 0x04),
            mem_equal(*old(self), *final(self)),
    {
        self.registers.a = 0;
        self.registers.x = 0;
        self.registers.y = 0;
        self.registers.s = 0xFD;
        self.registers.pc = pc;
        self.set_status(Flag::Irq, true);
    }

    /// Emulated CPU reset. In this core a reset leaves the machine as it is.
    pub fn reset(&mut self)
        ensures
            *final(self) == *old(self),
    {
    }

    /// The accumulator, for observation.
    pub fn reg_a(&self) -> (r: u8)
        ensures
            r == self.a(),
    {
        self.registers.a
    }

    /// The X index register, for observation.
    pub fn reg_x(&self) -> (r: u8)
        ensures
            r == self.x(),
    {
        self.registers.x
    }

    /// The Y index register, for observation.
    pub fn reg_y(&self) -> (r: u8)
        ensures
            r == self.y(),
    {
        self.registers.y
    }

    /// The stack pointer, for observation.
    pub fn reg_s(&self) -> (r: u8)
        ensures
            r == self.s(),
    {
        self.registers.s
    }

    /// The program counter, for observation.
    pub fn reg_pc(&self) -> (r: u16)
        ensures
            r == self.pc(),
    {
        self.registers.pc
    }

    /// The packed status byte, for observation.
    pub fn reg_status(&self) -> (r: u8)
        ensures
            r == self.status(),
    {
        self.registers.status
    }

    /// Immediate mode: the operand is the byte at the program counter; its
    /// address is returned and the operand byte is consumed.
    pub fn immediate_mode(&mut self) -> (r: u16)
        ensures
            r == old(self).pc(),
            final(self).inv() == old(self).inv(),
            final(self).regs() == (Regs { pc: old(self).pc().wrapping_add(1), ..old(self).regs() }),
            final(self).status() == old(self).status(),
            mem_equal(*old(self), *final(self)),
    {
        self.get_pc()
    }

    /// Absolute mode: the operand address is the next little-endian word.
    pub fn absolute_mode(&mut self) -> (r: Result<u16, CpuError>)
        requires
            old(self).inv(),
        ensures
            r is Ok <==> old(self).read_index(old(self).pc()) is Some && old(self).read_index(
                old(self).pc().wrapping_add(1),
            ) is Some,
            r is Ok ==> r->Ok_0 == fetch_word(*old(self)) && mode_frame(
                *old(self),
                *final(self),
                2,
            ),
            r is Err ==> mode_err_frame(*old(self), *final(self)) && (r matches Err(
                CpuError::Memory(_),
            )),
    {
        self.loadw_pc()
    }

    /// Absolute,X mode: the next little-endian word plus X (16-bit wrap).
    pub fn absolute_x_mode(&mut self) -> (r: Result<u16, CpuError>)
        requires
            old(self).inv(),
        ensures
            r is Ok <==> old(self).read_index(old(self).pc()) is Some && old(self).read_index(
                old(self).pc().wrapping_add(1),
            ) is Some,
            r is Ok ==> r->Ok_0 == fetch_word(*old(self)).wrapping_add(old(self).x() as u16)
                && mode_frame(*old(self), *final(self), 2),
            r is Err ==> mode_err_frame(*old(self), *final(self)) && (r matches Err(
                CpuError::Memory(_),
            )),
    {
        let base = match self.loadw_pc() {
            Ok(w) => w,
            Err(e) => {
                return Err(e);
            },
        };
        Ok(base.wrapping_add(self.registers.x as u16))
    }

    /// Absolute,Y mode: the next little-endian word plus Y (16-bit wrap).
    pub fn absolute_y_mode(&mut self) -> (r: Result<u16, CpuError>)
        requires
            old(self).inv(),
        ensures
            r is Ok <==> old(self).read_index(old(self).pc()) is Some && old(self).read_index(
                old(self).pc().wrapping_add(1),
            ) is Some,
            r is Ok ==> r->Ok_0 == fetch_word(*old(self)).wrapping_add(old(self).y() as u16)
                && mode_frame(*old(self), *final(self), 2),
            r is Err ==> mode_err_frame(*old(self), *final(self)) && (r matches Err(
                CpuError::Memory(_),
            )),
    {
        let base = match self.loadw_pc() {
            Ok(w) => w,
            Err(e) => {
                return Err(e);
            },
        };
        Ok(base.wrapping_add(self.registers.y as u16))
    }

    /// Zero-page mode: the operand address is the next byte, in page 0.
    pub fn zero_page_mode(&mut self) -> (r: Result<u16, CpuError>)
        requires
            old(self).inv(),
        ensures
            r is Ok <==> old(self).read_index(old(self).pc()) is Some,
            r is Ok ==> r->Ok_0 == byte_at(*old(self), old(self).pc()) as u16 && mode_frame(
                *old(self),
                *final(self),
                1,
            ),
            r is Err ==> *final(self) == *old(self) && (r matches Err(CpuError::Memory(_))),
    {
        let operand = match self.load_pc() {
            Ok(v) => v,
            Err(e) => {
                return Err(e);
            },
        };
        Ok(operand as u16)
    }

    /// Zero-page,X mode: the next byte plus X, wrapped within page 0.
    pub fn zero_page_x_mode(&mut self) -> (r: Result<u16, CpuError>)
        requires
            old(self).inv(),
        ensures
            r is Ok <==> old(self).read_index(old(self).pc()) is Some,
            r is Ok ==> r->Ok_0 == byte_at(*old(self), old(self).pc()).wrapping_add(
                old(self).x(),
            ) as u16 && mode_frame(*old(self), *final(self), 1),
            r is Err ==> *final(self) == *old(self) && (r matches Err(CpuError::Memory(_))),
    {
        let operand = match self.load_pc() {
            Ok(v) => v,
            Err(e) => {
                return Err(e);
            },
        };
        Ok(operand.wrapping_add(self.registers.x) as u16)
    }

    /// Zero-page,Y mode: the next byte plus Y, wrapped within page 0.
    pub fn zero_page_y_mode(&mut self) -> (r: Result<u16, CpuError>)
        requires
            old(self).inv(),
        ensures
            r is Ok <==> old(self).read_index(old(self).pc()) is Some,
            r is Ok ==> r->Ok_0 == byte_at(*old(self), old(self).pc()).wrapping_add(
                old(self).y(),
            ) as u16 && mode_frame(*old(self), *final(self), 1),
            r is Err ==> *final(self) == *old(self) && (r matches Err(CpuError::Memory(_))),
    {
        let operand = match self.load_pc() {
            Ok(v) => v,
            Err(e) => {
                return Err(e);
            },
        };
        Ok(operand.wrapping_add(self.registers.y) as u16)
    }

    /// Indirect,X mode: the next byte plus X (wrapped in page 0) points at a
    /// little-endian word, which is the operand address.
    pub fn indirect_x_mode(&mut self) -> (r: Result<u16, CpuError>)
        requires
            old(self).inv(),
        ensures
            r is Ok <==> ({
                let zp = byte_at(*old(self), old(self).pc()).wrapping_add(old(self).x()) as u16;
                &&& old(self).read_index(old(self).pc()) is Some
                &&& old(self).read_index(zp) is Some
                &&& old(self).read_index((zp + 1) as u16) is Some
            }),
            r is Ok ==> r->Ok_0 == word_at(
                *old(self),
                byte_at(*old(self), old(self).pc()).wrapping_add(old(self).x()) as u16,
            ) && mode_frame(*old(self), *final(self), 1),
            r is Err ==> mode_err_frame(*old(self), *final(self)) && (r matches Err(
                CpuError::Memory(_),
            )),
    {
        let operand = match self.load_pc() {
            Ok(v) => v,
            Err(e) => {
                return Err(e);
            },
        };
        let pointer = operand.wrapping_add(self.registers.x);
        match self.loadw(pointer as u16) {
            Ok(w) => Ok(w),
            Err(e) => Err(CpuError::Memory(e)),
        }
    }

    /// Indirect,Y mode: the next byte points at a little-endian word in page
    /// 0; the operand address is that word plus Y (16-bit wrap).
    pub fn indirect_y_mode(&mut self) -> (r: Result<u16, CpuError>)
        requires
            old(self).inv(),
        ensures
            r is Ok <==> ({
                let zp = byte_at(*old(self), old(self).pc()) as u16;
                &&& old(self).read_index(old(self).pc()) is Some
                &&& old(self).read_index(zp) is Some
                &&& old(self).read_index((zp + 1) as u16) is Some
            }),
            r is Ok ==> r->Ok_0 == word_at(
                *old(self),
                byte_at(*old(self), old(self).pc()) as u16,
            ).wrapping_add(old(self).y() as u16) && mode_frame(*old(self), *final(self), 1),
            r is Err ==> mode_err_frame(*old(self), *final(self)) && (r matches Err(
                CpuError::Memory(_),
            )),
    {
        let operand = match self.load_pc() {
            Ok(v) => v,
            Err(e) => {
                return Err(e);
            },
        };
        let base = match self.loadw(operand as u16) {
            Ok(w) => w,
            Err(e) => {
                return Err(CpuError::Memory(e));
            },
        };
        Ok(base.wrapping_add(self.registers.y as u16))
    }

    /// Relative mode (branches): the next byte is a signed two's-complement
    /// displacement added to the program counter once it has moved past the
    /// displacement byte.
    pub fn relative_mode(&mut self) -> (r: Result<u16, CpuError>)
        requires
            old(self).inv(),
        ensures
            r is Ok <==> old(self).read_index(old(self).pc()) is Some,
            r is Ok ==> r->Ok_0 == branch_target(*old(self)) && mode_frame(
                *old(self),
                *final(self),
                1,
            ),
            r is Err ==> *final(self) == *old(self) && (r matches Err(CpuError::Memory(_))),
    {
        let offset = match self.load_pc() {
            Ok(v) => v,
            Err(e) => {
                return Err(e);
            },
        };
        if offset >= 0x80 {
            Ok(self.registers.pc.wrapping_sub(0x100 - offset as u16))
        } else {
            Ok(self.registers.pc.wrapping_add(offset as u16))
        }
    }
}

/// `post`'s bus holds `pre`'s bytes with three successful stores applied, in
/// order.
pub open spec fn bus_stored3<M: Memory>(
    pre: CPU<M>,
    post: CPU<M>,
    address1: u16,
    v1: u8,
    address2: u16,
    v2: u8,
    address3: u16,
    v3: u8,
) -> bool {
    &&& pre.write_index(address1) is Some
    &&& pre.write_index(address2) is Some
    &&& pre.write_index(address3) is Some
    &&& 0 <= pre.write_index(address1)->Some_0 < pre.backing().len()
    &&& 0 <= pre.write_index(address2)->Some_0 < pre.backing().len()
    &&& 0 <= pre.write_index(address3)->Some_0 < pre.backing().len()
    &&& post.backing() == pre.backing().update(pre.write_index(address1)->Some_0, v1).update(
        pre.write_index(address2)->Some_0,
        v2,
    ).update(pre.write_index(address3)->Some_0, v3)
    &&& forall|a: u16| post.read_index(a) == pre.read_index(a)
    &&& forall|a: u16| post.write_index(a) == pre.write_index(a)
}

/// A branch consumed its displacement byte; when taken, the program counter
/// holds the relative-mode target, otherwise it sits just past the
/// displacement byte.
pub open spec fn branch_rel<M: Memory>(pre: CPU<M>, post: CPU<M>, taken: bool) -> bool {
    &&& post.inv()
    &&& post.regs() == (Regs {
        pc: if taken {
            branch_target(pre)
        } else {
            pre.pc().wrapping_add(1)
        },
        ..pre.regs()
    })
    &&& post.status() == pre.status()
    &&& mem_equal(pre, post)
}

/// JSR pushed the return address (the address of its last operand byte,
/// high byte first) and jumped to the fetched target word.
pub open spec fn jsr_rel<M: Memory>(pre: CPU<M>, post: CPU<M>) -> bool {
    let ret = pre.pc().wrapping_add(1);
    &&& post.inv()
    &&& post.regs() == (Regs {
        pc: fetch_word(pre),
        s: pre.s().wrapping_sub(2),
        ..pre.regs()
    })
    &&& post.status() == pre.status()
    &&& bus_stored2(
        pre,
        post,
        stack_addr(pre.s()),
        (ret / 256) as u8,
        stack_addr(pre.s().wrapping_sub(1)),
        (ret % 256) as u8,
    )
}

/// RTS pulled the saved return address and resumed one byte past it.
pub open spec fn rts_rel<M: Memory>(pre: CPU<M>, post: CPU<M>) -> bool {
    let lo = byte_at(pre, stack_addr(pre.s().wrapping_add(1)));
    let hi = byte_at(pre, stack_addr(pre.s().wrapping_add(2)));
    &&& post.inv()
    &&& post.regs() == (Regs {
        pc: ((lo + 256 * hi) as u16).wrapping_add(1),
        s: pre.s().wrapping_add(2),
        ..pre.regs()
    })
    &&& post.status() == pre.status()
    &&& mem_equal(pre, post)
}

/// RTI pulled the pre-interrupt status byte, then the pre-interrupt program
/// counter.
pub open spec fn rti_rel<M: Memory>(pre: CPU<M>, post: CPU<M>) -> bool {
    let lo = byte_at(pre, stack_addr(pre.s().wrapping_add(2)));
    let hi = byte_at(pre, stack_addr(pre.s().wrapping_add(3)));
    &&& post.inv()
    &&& post.regs() == (Regs {
        pc: (lo + 256 * hi) as u16,
        s: pre.s().wrapping_add(3),
        ..pre.regs()
    })
    &&& post.status() == byte_at(pre, stack_addr(pre.s().wrapping_add(1)))
    &&& mem_equal(pre, post)
}

/// BRK pushed the address one past the padding byte (high byte first), then
/// the status byte with Break set; it set IRQ-disable and loaded the program
/// counter from the IRQ vector at $FFFE.
pub open spec fn brk_rel<M: Memory>(pre: CPU<M>, post: CPU<M>) -> bool {
    let ret = pre.pc().wrapping_add(1);
    &&& post.inv()
    &&& post.regs() == (Regs {
        pc: word_at(pre, 0xFFFE),
        s: pre.s().wrapping_sub(3),
        ..pre.regs()
    })
    &&& post.status() == ((pre.status() | 0x10) | 0x04)
    &&& bus_stored3(
        pre,
        post,
        stack_addr(pre.s()),
        (ret / 256) as u8,
        stack_addr(pre.s().wrapping_sub(1)),
        (ret % 256) as u8,
        stack_addr(pre.s().wrapping_sub(2)),
        pre.status() | 0x10,
    )
}

impl<M: Memory> CPU<M> {
    /// ADC: adds the memory operand and the incoming carry to the
    /// accumulator. Carry is set on unsigned overflow past $FF; Overflow is
    /// set exactly when the operands share a sign bit and the result's sign
    /// differs from it; Z/N from the 8-bit result.
    pub fn adc(&mut self, address: u16) -> (r: Result<(), CpuError>)
        requires
            old(self).inv(),
        ensures
            final(self).inv(),
            r is Ok <==> old(self).read_index(address) is Some,
            r is Err ==> *final(self) == *old(self) && (r matches Err(CpuError::Memory(_))),
            r is Ok ==> ({
                let m = byte_at(*old(self), address);
                let sum = old(self).a() + m + (if old(self).carry() {
                    1int
                } else {
                    0int
                });
                let result = (sum % 256) as u8;
                &&& final(self).regs() == (Regs { a: result, ..old(self).regs() })
                &&& final(self).carry() == (sum > 0xFF)
                &&& final(self).overflow() == ((old(self).a() ^ m) & 0x80 == 0 && (old(self).a()
                    ^ result) & 0x80 == 0x80)
                &&& final(self).zero() == (result == 0)
                &&& final(self).negative() == (result & 0x80 != 0)
                &&& flags_same_except_cvzn(*old(self), *final(self))
                &&& mem_equal(*old(self), *final(self))
            }),
    {
        let value = match self.load(address) {
            Ok(v) => v,
            Err(e) => {
                return Err(CpuError::Memory(e));
            },
        };
        let a = self.registers.a;
        let carry_in: u16 = if self.get_status(Flag::Carry) {
            1
        } else {
            0
        };
        let sum: u16 = a as u16 + value as u16 + carry_in;
        let result: u8 = (sum % 256) as u8;
        self.set_status(Flag::Carry, sum > 0xFF);
        self.set_status(Flag::Overflow, (a ^ value) & 0x80 == 0 && (a ^ result) & 0x80 == 0x80);
        self.set_zn(result);
        self.registers.a = result;
        Ok(())
    }

    /// AND: bitwise-ANDs the memory operand into the accumulator; Z/N from
    /// the result.
    pub fn and(&mut self, address: u16) -> (r: Result<(), CpuError>)
        requires
            old(self).inv(),
        ensures
            final(self).inv(),
            r is Ok <==> old(self).read_index(address) is Some,
            r is Err ==> *final(self) == *old(self) && (r matches Err(CpuError::Memory(_))),
            r is Ok ==> ({
                let result = old(self).a() & byte_at(*old(self), address);
                &&& final(self).regs() == (Regs { a: result, ..old(self).regs() })
                &&& final(self).zero() == (result == 0)
                &&& final(self).negative() == (result & 0x80 != 0)
                &&& flags_same_except_zn(*old(self), *final(self))
                &&& mem_equal(*old(self), *final(self))
            }),
    {
        let value = match self.load(address) {
            Ok(v) => v,
            Err(e) => {
                return Err(CpuError::Memory(e));
            },
        };
        let new_a = self.registers.a & value;
        self.set_zn(new_a);
        self.registers.a = new_a;
        Ok(())
    }

    /// EOR: bitwise-XORs the memory operand into the accumulator; Z/N from
    /// the result.
    pub fn eor(&mut self, address: u16) -> (r: Result<(), CpuError>)
        requires
            old(self).inv(),
        ensures
            final(self).inv(),
            r is Ok <==> old(self).read_index(address) is Some,
            r is Err ==> *final(self) == *old(self) && (r matches Err(CpuError::Memory(_))),
            r is Ok ==> ({
                let result = old(self).a() ^ byte_at(*old(self), address);
                &&& final(self).regs() == (Regs { a: result, ..old(self).regs() })
                &&& final(self).zero() == (result == 0)
                &&& final(self).negative() == (result & 0x80 != 0)
                &&& flags_same_except_zn(*old(self), *final(self))
                &&& mem_equal(*old(self), *final(self))
            }),
    {
        let value = match self.load(address) {
            Ok(v) => v,
            Err(e) => {
                return Err(CpuError::Memory(e));
            },
        };
        let new_a = self.registers.a ^ value;
        self.set_zn(new_a);
        self.registers.a = new_a;
        Ok(())
    }

    /// ORA: bitwise-ORs the memory operand into the accumulator; Z/N from
    /// the result.
    pub fn ora(&mut self, address: u16) -> (r: Result<(), CpuError>)
        requires
            old(self).inv(),
        ensures
            final(self).inv(),
            r is Ok <==> old(self).read_index(address) is Some,
            r is Err ==> *final(self) == *old(self) && (r matches Err(CpuError::Memory(_))),
            r is Ok ==> ({
                let result = old(self).a() | byte_at(*old(self), address);
                &&& final(self).regs() == (Regs { a: result, ..old(self).regs() })
                &&& final(self).zero() == (result == 0)
                &&& final(self).negative() == (result & 0x80 != 0)
                &&& flags_same_except_zn(*old(self), *final(self))
                &&& mem_equal(*old(self), *final(self))
            }),
    {
        let value = match self.load(address) {
            Ok(v) => v,
            Err(e) => {
                return Err(CpuError::Memory(e));
            },
        };
        let new_a = self.registers.a | value;
        self.set_zn(new_a);
        self.registers.a = new_a;
        Ok(())
    }

    /// LDA: loads the memory operand into the accumulator; Z/N from it.
    pub fn lda(&mut self, address: u16) -> (r: Result<(), CpuError>)
        requires
            old(self).inv(),
        ensures
            final(self).inv(),
            r is Ok <==> old(self).read_index(address) is Some,
            r is Err ==> *final(self) == *old(self) && (r matches Err(CpuError::Memory(_))),
            r is Ok ==> ({
                let result = byte_at(*old(self), address);
                &&& final(self).regs() == (Regs { a: result, ..old(self).regs() })
                &&& final(self).zero() == (result == 0)
                &&& final(self).negative() == (result & 0x80 != 0)
                &&& flags_same_except_zn(*old(self), *final(self))
                &&& mem_equal(*old(self), *final(self))
            }),
    {
        let new_a = match self.load(address) {
            Ok(v) => v,
            Err(e) => {
                return Err(CpuError::Memory(e));
            },
        };
        self.registers.a = new_a;
        self.set_zn(new_a);
        Ok(())
    }

    /// LDX: loads the memory operand into X; Z/N from it.
    pub fn ldx(&mut self, address: u16) -> (r: Result<(), CpuError>)
        requires
            old(self).inv(),
        ensures
            final(self).inv(),
            r is Ok <==> old(self).read_index(address) is Some,
            r is Err ==> *final(self) == *old(self) && (r matches Err(CpuError::Memory(_))),
            r is Ok ==> ({
                let result = byte_at(*old(self), address);
                &&& final(self).regs() == (Regs { x: result, ..old(self).regs() })
                &&& final(self).zero() == (result == 0)
                &&& final(self).negative() == (result & 0x80 != 0)
                &&& flags_same_except_zn(*old(self), *final(self))
                &&& mem_equal(*old(self), *final(self))
            }),
    {
        let new_x = match self.load(address) {
            Ok(v) => v,
            Err(e) => {
                return Err(CpuError::Memory(e));
            },
        };
        self.registers.x = new_x;
        self.set_zn(new_x);
        Ok(())
    }

    /// LDY: loads the memory operand into Y; Z/N from it.
    pub fn ldy(&mut self, address: u16) -> (r: Result<(), CpuError>)
        requires
            old(self).inv(),
        ensures
            final(self).inv(),
            r is Ok <==> old(self).read_index(address) is Some,
            r is Err ==> *final(self) == *old(self) && (r matches Err(CpuError::Memory(_))),
            r is Ok ==> ({
                let result = byte_at(*old(self), address);
                &&& final(self).regs() == (Regs { y: result, ..old(self).regs() })
                &&& final(self).zero() == (result == 0)
                &&& final(self).negative() == (result & 0x80 != 0)
                &&& flags_same_except_zn(*old(self), *final(self))
                &&& mem_equal(*old(self), *final(self))
            }),
    {
        let new_y = match self.load(address) {
            Ok(v) => v,
            Err(e) => {
                return Err(CpuError::Memory(e));
            },
        };
        self.registers.y = new_y;
        self.set_zn(new_y);
        Ok(())
    }

    /// BIT: tests the memory operand. Negative and Overflow mirror the
    /// operand's bits 7 and 6; Zero is set when the operand and the
    /// accumulator share no set bit. The accumulator itself is unchanged.
    pub fn bit(&mut self, address: u16) -> (r: Result<(), CpuError>)
        requires
            old(self).inv(),
        ensures
            final(self).inv(),
            r is Ok <==> old(self).read_index(address) is Some,
            r is Err ==> *final(self) == *old(self) && (r matches Err(CpuError::Memory(_))),
            r is Ok ==> ({
                let m = byte_at(*old(self), address);
                &&& final(self).regs() == old(self).regs()
                &&& final(self).negative() == (m & 0x80 == 0x80)
                &&& final(self).overflow() == (m & 0x40 == 0x40)
                &&& final(self).zero() == (old(self).a() & m == 0)
                &&& final(self).carry() == old(self).carry()
                &&& flags_same_except_cvzn(*old(self), *final(self))
                &&& mem_equal(*old(self), *final(self))
            }),
    {
        let value = match self.load(address) {
            Ok(v) => v,
            Err(e) => {
                return Err(CpuError::Memory(e));
            },
        };
        self.set_status(Flag::Negative, value & 0x80 == 0x80);
        self.set_status(Flag::Overflow, value & 0x40 == 0x40);
        let a = self.registers.a;
        self.set_status(Flag::Zero, a & value == 0);
        Ok(())
    }

    /// Shared comparison: Carry when the register is at least the operand,
    /// Z/N from the wrapping 8-bit difference.
    pub fn compare(&mut self, a: u8, b: u8)
        ensures
            final(self).inv() == old(self).inv(),
            final(self).regs() == old(self).regs(),
            mem_equal(*old(self), *final(self)),
            final(self).carry() == (a >= b),
            final(self).zero() == (a == b),
            final(self).negative() == (a.wrapping_sub(b) & 0x80 != 0),
            flags_same_except_czn(*old(self), *final(self)),
    {
        self.set_status(Flag::Carry, a >= b);
        self.set_zn(a.wrapping_sub(b));
    }

    /// CMP: compares the accumulator with the memory operand.
    pub fn cmp(&mut self, address: u16) -> (r: Result<(), CpuError>)
        requires
            old(self).inv(),
        ensures
            final(self).inv(),
            r is Ok <==> old(self).read_index(address) is Some,
            r is Err ==> *final(self) == *old(self) && (r matches Err(CpuError::Memory(_))),
            r is Ok ==> ({
                let m = byte_at(*old(self), address);
                &&& final(self).regs() == old(self).regs()
                &&& final(self).carry() == (old(self).a() >= m)
                &&& final(self).zero() == (old(self).a() == m)
                &&& final(self).negative() == (old(self).a().wrapping_sub(m) & 0x80 != 0)
                &&& flags_same_except_czn(*old(self), *final(self))
                &&& mem_equal(*old(self), *final(self))
            }),
    {
        let a = self.registers.a;
        let b = match self.load(address) {
            Ok(v) => v,
            Err(e) => {
                return Err(CpuError::Memory(e));
            },
        };
        self.compare(a, b);
        Ok(())
    }

    /// CPX: compares X with the memory operand.
    pub fn cpx(&mut self, address: u16) -> (r: Result<(), CpuError>)
        requires
            old(self).inv(),
        ensures
            final(self).inv(),
            r is Ok <==> old(self).read_index(address) is Some,
            r is Err ==> *final(self) == *old(self) && (r matches Err(CpuError::Memory(_))),
            r is Ok ==> ({
                let m = byte_at(*old(self), address);
                &&& final(self).regs() == old(self).regs()
                &&& final(self).carry() == (old(self).x() >= m)
                &&& final(self).zero() == (old(self).x() == m)
                &&& final(self).negative() == (old(self).x().wrapping_sub(m) & 0x80 != 0)
                &&& flags_same_except_czn(*old(self), *final(self))
                &&& mem_equal(*old(self), *final(self))
            }),
    {
        let a = self.registers.x;
        let b = match self.load(address) {
            Ok(v) => v,
            Err(e) => {
                return Err(CpuError::Memory(e));
            },
        };
        self.compare(a, b);
        Ok(())
    }

    /// CPY: compares Y with the memory operand.
    pub fn cpy(&mut self, address: u16) -> (r: Result<(), CpuError>)
        requires
            old(self).inv(),
        ensures
            final(self).inv(),
            r is Ok <==> old(self).read_index(address) is Some,
            r is Err ==> *final(self) == *old(self) && (r matches Err(CpuError::Memory(_))),
            r is Ok ==> ({
                let m = byte_at(*old(self), address);
                &&& final(self).regs() == old(self).regs()
                &&& final(self).carry() == (old(self).y() >= m)
                &&& final(self).zero() == (old(self).y() == m)
                &&& final(self).negative() == (old(self).y().wrapping_sub(m) & 0x80 != 0)
                &&& flags_same_except_czn(*old(self), *final(self))
                &&& mem_equal(*old(self), *final(self))
            }),
    {
        let a = self.registers.y;
        let b = match self.load(address) {
            Ok(v) => v,
            Err(e) => {
                return Err(CpuError::Memory(e));
            },
        };
        self.compare(a, b);
        Ok(())
    }

    /// ASL: shifts the memory operand left one bit. Carry takes the bit
    /// shifted out (bit 7); Z/N from the shifted result.
    pub fn asl(&mut self, address: u16) -> (r: Result<(), CpuError>)
        requires
            old(self).inv(),
        ensures
            final(self).inv(),
            r is Ok <==> old(self).read_index(address) is Some && old(self).write_index(
                address,
            ) is Some,
            old(self).read_index(address) is None ==> *final(self) == *old(self),
            r is Err ==> final(self).regs() == old(self).regs() && final(self).status() == old(
                self,
            ).status() && bus_preserved(*old(self), *final(self)) && (r matches Err(
                CpuError::Memory(_),
            )),
            r is Ok ==> ({
                let m = byte_at(*old(self), address);
                &&& bus_stored(*old(self), *final(self), address, m << 1)
                &&& final(self).regs() == old(self).regs()
                &&& final(self).carry() == (m & 0x80 == 0x80)
                &&& final(self).zero() == (m << 1 == 0)
                &&& final(self).negative() == ((m << 1) & 0x80 != 0)
                &&& flags_same_except_czn(*old(self), *final(self))
            }),
    {
        let value = match self.load(address) {
            Ok(v) => v,
            Err(e) => {
                return Err(CpuError::Memory(e));
            },
        };
        let shifted = value << 1;
        match self.bus_store(address, shifted) {
            Ok(()) => (),
            Err(e) => {
                return Err(CpuError::Memory(e));
            },
        }
        self.set_status(Flag::Carry, value & 0x80 == 0x80);
        self.set_zn(shifted);
        Ok(())
    }

    /// ASL on the accumulator: Carry takes bit 7, Z/N from the result.
    pub fn asla(&mut self)
        ensures
            final(self).inv() == old(self).inv(),
            final(self).regs() == (Regs { a: old(self).a() << 1, ..old(self).regs() }),
            final(self).carry() == (old(self).a() & 0x80 == 0x80),
            final(self).zero() == (old(self).a() << 1 == 0),
            final(self).negative() == ((old(self).a() << 1) & 0x80 != 0),
            flags_same_except_czn(*old(self), *final(self)),
            mem_equal(*old(self), *final(self)),
    {
        let a = self.registers.a;
        self.set_status(Flag::Carry, a & 0x80 == 0x80);
        let new_a = a << 1;
        self.set_zn(new_a);
        self.registers.a = new_a;
    }

    /// LSR: shifts the memory operand right one bit. Carry takes the bit
    /// shifted out (bit 0); Z/N from the shifted result.
    pub fn lsr(&mut self, address: u16) -> (r: Result<(), CpuError>)
        requires
            old(self).inv(),
        ensures
            final(self).inv(),
            r is Ok <==> old(self).read_index(address) is Some && old(self).write_index(
                address,
            ) is Some,
            old(self).read_index(address) is None ==> *final(self) == *old(self),
            r is Err ==> final(self).regs() == old(self).regs() && final(self).status() == old(
                self,
            ).status() && bus_preserved(*old(self), *final(self)) && (r matches Err(
                CpuError::Memory(_),
            )),
            r is Ok ==> ({
                let m = byte_at(*old(self), address);
                &&& bus_stored(*old(self), *final(self), address, m >> 1)
                &&& final(self).regs() == old(self).regs()
                &&& final(self).carry() == (m & 0x01 == 0x01)
                &&& final(self).zero() == (m >> 1 == 0)
                &&& final(self).negative() == ((m >> 1) & 0x80 != 0)
                &&& flags_same_except_czn(*old(self), *final(self))
            }),
    {
        let value = match self.load(address) {
            Ok(v) => v,
            Err(e) => {
                return Err(CpuError::Memory(e));
            },
        };
        let shifted = value >> 1;
        match self.bus_store(address, shifted) {
            Ok(()) => (),
            Err(e) => {
                return Err(CpuError::Memory(e));
            },
        }
        self.set_status(Flag::Carry, value & 0x01 == 0x01);
        self.set_zn(shifted);
        Ok(())
    }

    /// LSR on the accumulator: Carry takes bit 0, Z/N from the result.
    pub fn lsra(&mut self)
        ensures
            final(self).inv() == old(self).inv(),
            final(self).regs() == (Regs { a: old(self).a() >> 1, ..old(self).regs() }),
            final(self).carry() == (old(self).a() & 0x01 == 0x01),
            final(self).zero() == (old(self).a() >> 1 == 0),
            final(self).negative() == ((old(self).a() >> 1) & 0x80 != 0),
            flags_same_except_czn(*old(self), *final(self)),
            mem_equal(*old(self), *final(self)),
    {
        let a = self.registers.a;
        self.set_status(Flag::Carry, a & 0x01 == 0x01);
        let new_a = a >> 1;
        self.set_zn(new_a);
        self.registers.a = new_a;
    }

    /// DEC: decrements the memory operand by one, wrapping at 0; Z/N from
    /// the result.
    pub fn dec(&mut self, address: u16) -> (r: Result<(), CpuError>)
        requires
            old(self).inv(),
        ensures
            final(self).inv(),
            r is Ok <==> old(self).read_index(address) is Some && old(self).write_index(
                address,
            ) is Some,
            old(self).read_index(address) is None ==> *final(self) == *old(self),
            r is Err ==> final(self).regs() == old(self).regs() && final(self).status() == old(
                self,
            ).status() && bus_preserved(*old(self), *final(self)) && (r matches Err(
                CpuError::Memory(_),
            )),
            r is Ok ==> ({
                let result = byte_at(*old(self), address).wrapping_sub(1);
                &&& bus_stored(*old(self), *final(self), address, result)
                &&& final(self).regs() == old(self).regs()
                &&& final(self).zero() == (result == 0)
                &&& final(self).negative() == (result & 0x80 != 0)
                &&& flags_same_except_zn(*old(self), *final(self))
            }),
    {
        let value = match self.load(address) {
            Ok(v) => v,
            Err(e) => {
                return Err(CpuError::Memory(e));
            },
        };
        let result = value.wrapping_sub(1);
        match self.bus_store(address, result) {
            Ok(()) => (),
            Err(e) => {
                return Err(CpuError::Memory(e));
            },
        }
        self.set_zn(result);
        Ok(())
    }

    /// INC: increments the memory operand by one, wrapping at $FF; Z/N from
    /// the result.
    pub fn inc(&mut self, address: u16) -> (r: Result<(), CpuError>)
        requires
            old(self).inv(),
        ensures
            final(self).inv(),
            r is Ok <==> old(self).read_index(address) is Some && old(self).write_index(
                address,
            ) is Some,
            old(self).read_index(address) is None ==> *final(self) == *old(self),
            r is Err ==> final(self).regs() == old(self).regs() && final(self).status() == old(
                self,
            ).status() && bus_preserved(*old(self), *final(self)) && (r matches Err(
                CpuError::Memory(_),
            )),
            r is Ok ==> ({
                let result = byte_at(*old(self), address).wrapping_add(1);
                &&& bus_stored(*old(self), *final(self), address, result)
                &&& final(self).regs() == old(self).regs()
                &&& final(self).zero() == (result == 0)
                &&& final(self).negative() == (result & 0x80 != 0)
                &&& flags_same_except_zn(*old(self), *final(self))
            }),
    {
        let value = match self.load(address) {
            Ok(v) => v,
            Err(e) => {
                return Err(CpuError::Memory(e));
            },
        };
        let result = value.wrapping_add(1);
        match self.bus_store(address, result) {
            Ok(()) => (),
            Err(e) => {
                return Err(CpuError::Memory(e));
            },
        }
        self.set_zn(result);
        Ok(())
    }

    /// DEX: decrements X by one, wrapping; Z/N from the result.
    pub fn dex(&mut self)
        ensures
            final(self).inv() == old(self).inv(),
            final(self).regs() == (Regs { x: old(self).x().wrapping_sub(1), ..old(self).regs() }),
            final(self).zero() == (old(self).x().wrapping_sub(1) == 0),
            final(self).negative() == (old(self).x().wrapping_sub(1) & 0x80 != 0),
            flags_same_except_zn(*old(self), *final(self)),
            mem_equal(*old(self), *final(self)),
    {
        let v = self.registers.x.wrapping_sub(1);
        self.registers.x = v;
        self.set_zn(v);
    }

    /// DEY: decrements Y by one, wrapping; Z/N from the result.
    pub fn dey(&mut self)
        ensures
            final(self).inv() == old(self).inv(),
            final(self).regs() == (Regs { y: old(self).y().wrapping_sub(1), ..old(self).regs() }),
            final(self).zero() == (old(self).y().wrapping_sub(1) == 0),
            final(self).negative() == (old(self).y().wrapping_sub(1) & 0x80 != 0),
            flags_same_except_zn(*old(self), *final(self)),
            mem_equal(*old(self), *final(self)),
    {
        let v = self.registers.y.wrapping_sub(1);
        self.registers.y = v;
        self.set_zn(v);
    }

    /// INX: increments X by one, wrapping; Z/N from the result.
    pub fn inx(&mut self)
        ensures
            final(self).inv() == old(self).inv(),
            final(self).regs() == (Regs { x: old(self).x().wrapping_add(1), ..old(self).regs() }),
            final(self).zero() == (old(self).x().wrapping_add(1) == 0),
            final(self).negative() == (old(self).x().wrapping_add(1) & 0x80 != 0),
            flags_same_except_zn(*old(self), *final(self)),
            mem_equal(*old(self), *final(self)),
    {
        let v = self.registers.x.wrapping_add(1);
        self.registers.x = v;
        self.set_zn(v);
    }

    /// INY: increments Y by one, wrapping; Z/N from the result.
    pub fn iny(&mut self)
        ensures
            final(self).inv() == old(self).inv(),
            final(self).regs() == (Regs { y: old(self).y().wrapping_add(1), ..old(self).regs() }),
            final(self).zero() == (old(self).y().wrapping_add(1) == 0),
            final(self).negative() == (old(self).y().wrapping_add(1) & 0x80 != 0),
            flags_same_except_zn(*old(self), *final(self)),
            mem_equal(*old(self), *final(self)),
    {
        let v = self.registers.y.wrapping_add(1);
        self.registers.y = v;
        self.set_zn(v);
    }

    /// CLC: clears the Carry flag.
    pub fn clc(&mut self)
        ensures
            final(self).inv() == old(self).inv(),
            final(self).regs() == old(self).regs(),
            mem_equal(*old(self), *final(self)),
            !final(self).carry(),
            forall|f: Flag| f != Flag::Carry ==> final(self).flag_set(f) == old(self).flag_set(f),
            bit5_same(*old(self), *final(self)),
    {
        self.set_status(Flag::Carry, false);
    }

    /// CLD: clears the Decimal flag.
    pub fn cld(&mut self)
        ensures
            final(self).inv() == old(self).inv(),
            final(self).regs() == old(self).regs(),
            mem_equal(*old(self), *final(self)),
            !final(self).decimal(),
            forall|f: Flag| f != Flag::Decimal ==> final(self).flag_set(f) == old(self).flag_set(f),
            bit5_same(*old(self), *final(self)),
    {
        self.set_status(Flag::Decimal, false);
    }

    /// CLI: clears the IRQ-disable flag.
    pub fn cli(&mut self)
        ensures
            final(self).inv() == old(self).inv(),
            final(self).regs() == old(self).regs(),
            mem_equal(*old(self), *final(self)),
            !final(self).irq_disable(),
            forall|f: Flag| f != Flag::Irq ==> final(self).flag_set(f) == old(self).flag_set(f),
            bit5_same(*old(self), *final(self)),
    {
        self.set_status(Flag::Irq, false);
    }

    /// CLV: clears the Overflow flag.
    pub fn clv(&mut self)
        ensures
            final(self).inv() == old(self).inv(),
            final(self).regs() == old(self).regs(),
            mem_equal(*old(self), *final(self)),
            !final(self).overflow(),
            forall|f: Flag| f != Flag::Overflow ==> final(self).flag_set(f) == old(self).flag_set(
                f,
            ),
            bit5_same(*old(self), *final(self)),
    {
        self.set_status(Flag::Overflow, false);
    }

    /// SEC: sets the Carry flag.
    pub fn sec(&mut self)
        ensures
            final(self).inv() == old(self).inv(),
            final(self).regs() == old(self).regs(),
            mem_equal(*old(self), *final(self)),
            final(self).carry(),
            forall|f: Flag| f != Flag::Carry ==> final(self).flag_set(f) == old(self).flag_set(f),
            bit5_same(*old(self), *final(self)),
    {
        self.set_status(Flag::Carry, true);
    }

    /// SED: sets the Decimal flag.
    pub fn sed(&mut self)
        ensures
            final(self).inv() == old(self).inv(),
            final(self).regs() == old(self).regs(),
            mem_equal(*old(self), *final(self)),
            final(self).decimal(),
            forall|f: Flag| f != Flag::Decimal ==> final(self).flag_set(f) == old(self).flag_set(f),
            bit5_same(*old(self), *final(self)),
    {
        self.set_status(Flag::Decimal, true);
    }

    /// SEI: sets the IRQ-disable flag.
    pub fn sei(&mut self)
        ensures
            final(self).inv() == old(self).inv(),
            final(self).regs() == old(self).regs(),
            mem_equal(*old(self), *final(self)),
            final(self).irq_disable(),
            forall|f: Flag| f != Flag::Irq ==> final(self).flag_set(f) == old(self).flag_set(f),
            bit5_same(*old(self), *final(self)),
    {
        self.set_status(Flag::Irq, true);
    }

    /// NOP: no operation.
    pub fn nop(&self) {
    }

    /// PHA: pushes the accumulator onto the stack.
    pub fn pha(&mut self)
        requires
            old(self).inv(),
        ensures
            push_rel(*old(self), *final(self), old(self).a()),
    {
        let a = self.registers.a;
        self.push(a);
    }

    /// PHP: pushes the packed status byte onto the stack.
    pub fn php(&mut self)
        requires
            old(self).inv(),
        ensures
            push_rel(*old(self), *final(self), old(self).status()),
    {
        let p = self.registers.status;
        self.push(p);
    }

    /// PLA: pulls the accumulator from the stack.
    pub fn pla(&mut self)
        requires
            old(self).inv(),
        ensures
            final(self).inv(),
            final(self).regs() == (Regs {
                a: byte_at(*old(self), stack_addr(old(self).s().wrapping_add(1))),
                s: old(self).s().wrapping_add(1),
                ..old(self).regs()
            }),
            final(self).status() == old(self).status(),
            mem_equal(*old(self), *final(self)),
    {
        let v = self.pull();
        self.registers.a = v;
    }

    /// PLP: pulls the packed status byte from the stack.
    pub fn plp(&mut self)
        requires
            old(self).inv(),
        ensures
            final(self).inv(),
            final(self).regs() == (Regs {
                s: old(self).s().wrapping_add(1),
                ..old(self).regs()
            }),
            final(self).status() == byte_at(
                *old(self),
                stack_addr(old(self).s().wrapping_add(1)),
            ),
            mem_equal(*old(self), *final(self)),
    {
        let v = self.pull();
        self.registers.status = v;
    }

    /// BCC: branch when Carry is clear.
    pub fn bcc(&mut self) -> (r: Result<(), CpuError>)
        requires
            old(self).inv(),
        ensures
            final(self).inv(),
            r is Ok <==> old(self).read_index(old(self).pc()) is Some,
            r is Err ==> *final(self) == *old(self) && (r matches Err(CpuError::Memory(_))),
            r is Ok ==> branch_rel(*old(self), *final(self), !old(self).carry()),
    {
        let target = match self.relative_mode() {
            Ok(t) => t,
            Err(e) => {
                return Err(e);
            },
        };
        if !self.get_status(Flag::Carry) {
            self.registers.pc = target;
        }
        Ok(())
    }

    /// BCS: branch when Carry is set.
    pub fn bcs(&mut self) -> (r: Result<(), CpuError>)
        requires
            old(self).inv(),
        ensures
            final(self).inv(),
            r is Ok <==> old(self).read_index(old(self).pc()) is Some,
            r is Err ==> *final(self) == *old(self) && (r matches Err(CpuError::Memory(_))),
            r is Ok ==> branch_rel(*old(self), *final(self), old(self).carry()),
    {
        let target = match self.relative_mode() {
            Ok(t) => t,
            Err(e) => {
                return Err(e);
            },
        };
        if self.get_status(Flag::Carry) {
            self.registers.pc = target;
        }
        Ok(())
    }

    /// BEQ: branch when Zero is set.
    pub fn beq(&mut self) -> (r: Result<(), CpuError>)
        requires
            old(self).inv(),
        ensures
            final(self).inv(),
            r is Ok <==> old(self).read_index(old(self).pc()) is Some,
            r is Err ==> *final(self) == *old(self) && (r matches Err(CpuError::Memory(_))),
            r is Ok ==> branch_rel(*old(self), *final(self), old(self).zero()),
    {
        let target = match self.relative_mode() {
            Ok(t) => t,
            Err(e) => {
                return Err(e);
            },
        };
        if self.get_status(Flag::Zero) {
            self.registers.pc = target;
        }
        Ok(())
    }

    /// BNE: branch when Zero is clear.
    pub fn bne(&mut self) -> (r: Result<(), CpuError>)
        requires
            old(self).inv(),
        ensures
            final(self).inv(),
            r is Ok <==> old(self).read_index(old(self).pc()) is Some,
            r is Err ==> *final(self) == *old(self) && (r matches Err(CpuError::Memory(_))),
            r is Ok ==> branch_rel(*old(self), *final(self), !old(self).zero()),
    {
        let target = match self.relative_mode() {
            Ok(t) => t,
            Err(e) => {
                return Err(e);
            },
        };
        if !self.get_status(Flag::Zero) {
            self.registers.pc = target;
        }
        Ok(())
    }

    /// BMI: branch when Negative is set.
    pub fn bmi(&mut self) -> (r: Result<(), CpuError>)
        requires
            old(self).inv(),
        ensures
            final(self).inv(),
            r is Ok <==> old(self).read_index(old(self).pc()) is Some,
            r is Err ==> *final(self) == *old(self) && (r matches Err(CpuError::Memory(_))),
            r is Ok ==> branch_rel(*old(self), *final(self), old(self).negative()),
    {
        let target = match self.relative_mode() {
            Ok(t) => t,
            Err(e) => {
                return Err(e);
            },
        };
        if self.get_status(Flag::Negative) {
            self.registers.pc = target;
        }
        Ok(())
    }

    /// BPL: branch when Negative is clear.
    pub fn bpl(&mut self) -> (r: Result<(), CpuError>)
        requires
            old(self).inv(),
        ensures
            final(self).inv(),
            r is Ok <==> old(self).read_index(old(self).pc()) is Some,
            r is Err ==> *final(self) == *old(self) && (r matches Err(CpuError::Memory(_))),
            r is Ok ==> branch_rel(*old(self), *final(self), !old(self).negative()),
    {
        let target = match self.relative_mode() {
            Ok(t) => t,
            Err(e) => {
                return Err(e);
            },
        };
        if !self.get_status(Flag::Negative) {
            self.registers.pc = target;
        }
        Ok(())
    }

    /// BVC: branch when Overflow is clear.
    pub fn bvc(&mut self) -> (r: Result<(), CpuError>)
        requires
            old(self).inv(),
        ensures
            final(self).inv(),
            r is Ok <==> old(self).read_index(old(self).pc()) is Some,
            r is Err ==> *final(self) == *old(self) && (r matches Err(CpuError::Memory(_))),
            r is Ok ==> branch_rel(*old(self), *final(self), !old(self).overflow()),
    {
        let target = match self.relative_mode() {
            Ok(t) => t,
            Err(e) => {
                return Err(e);
            },
        };
        if !self.get_status(Flag::Overflow) {
            self.registers.pc = target;
        }
        Ok(())
    }

    /// BVS: branch when Overflow is set.
    pub fn bvs(&mut self) -> (r: Result<(), CpuError>)
        requires
            old(self).inv(),
        ensures
            final(self).inv(),
            r is Ok <==> old(self).read_index(old(self).pc()) is Some,
            r is Err ==> *final(self) == *old(self) && (r matches Err(CpuError::Memory(_))),
            r is Ok ==> branch_rel(*old(self), *final(self), old(self).overflow()),
    {
        let target = match self.relative_mode() {
            Ok(t) => t,
            Err(e) => {
                return Err(e);
            },
        };
        if self.get_status(Flag::Overflow) {
            self.registers.pc = target;
        }
        Ok(())
    }

    /// JMP absolute: sets the program counter to the fetched word.
    pub fn jmpa(&mut self) -> (r: Result<(), CpuError>)
        requires
            old(self).inv(),
        ensures
            final(self).inv(),
            r is Ok <==> old(self).read_index(old(self).pc()) is Some && old(self).read_index(
                old(self).pc().wrapping_add(1),
            ) is Some,
            r is Err ==> mode_err_frame(*old(self), *final(self)) && (r matches Err(
                CpuError::Memory(_),
            )),
            r is Ok ==> final(self).regs() == (Regs {
                pc: fetch_word(*old(self)),
                ..old(self).regs()
            }) && final(self).status() == old(self).status() && mem_equal(*old(self), *final(self)),
    {
        let value = match self.loadw_pc() {
            Ok(w) => w,
            Err(e) => {
                return Err(e);
            },
        };
        self.registers.pc = value;
        Ok(())
    }

    /// JMP indirect: the fetched word points at another little-endian word,
    /// which becomes the program counter. A pointer at $FFFF has no byte
    /// above it to complete the word and is reported as out of range.
    pub fn jmpi(&mut self) -> (r: Result<(), CpuError>)
        requires
            old(self).inv(),
        ensures
            final(self).inv(),
            r is Ok <==> ({
                let pointer = fetch_word(*old(self));
                &&& old(self).read_index(old(self).pc()) is Some
                &&& old(self).read_index(old(self).pc().wrapping_add(1)) is Some
                &&& pointer != 0xFFFF
                &&& old(self).read_index(pointer) is Some
                &&& old(self).read_index((pointer + 1) as u16) is Some
            }),
            r is Err ==> mode_err_frame(*old(self), *final(self)) && (r matches Err(
                CpuError::Memory(_),
            )),
            r is Ok ==> final(self).regs() == (Regs {
                pc: word_at(*old(self), fetch_word(*old(self))),
                ..old(self).regs()
            }) && final(self).status() == old(self).status() && mem_equal(*old(self), *final(self)),
    {
        let address = match self.loadw_pc() {
            Ok(w) => w,
            Err(e) => {
                return Err(e);
            },
        };
        if address == 0xFFFF {
            return Err(CpuError::Memory(MemoryError::OutOfRange(address)));
        }
        let value = match self.loadw(address) {
            Ok(w) => w,
            Err(e) => {
                return Err(CpuError::Memory(e));
            },
        };
        self.registers.pc = value;
        Ok(())
    }

    /// JSR: fetches the target word, pushes the program counter minus one
    /// (the address of the operand's last byte) and jumps to the target.
    pub fn jsr(&mut self) -> (r: Result<(), CpuError>)
        requires
            old(self).inv(),
        ensures
            final(self).inv(),
            r is Ok <==> old(self).read_index(old(self).pc()) is Some && old(self).read_index(
                old(self).pc().wrapping_add(1),
            ) is Some,
            r is Err ==> mode_err_frame(*old(self), *final(self)) && (r matches Err(
                CpuError::Memory(_),
            )),
            r is Ok ==> jsr_rel(*old(self), *final(self)),
    {
        let address = match self.loadw_pc() {
            Ok(w) => w,
            Err(e) => {
                return Err(e);
            },
        };
        let pc = self.registers.pc;
        self.pushw(pc.wrapping_sub(1));
        let ghost mid = *self;
        self.registers.pc = address;
        proof {
            lemma_mem_equal_bus(mid, *self);
        }
        Ok(())
    }

    /// RTS: pulls the saved return address and adds one to resume after the
    /// call.
    pub fn rts(&mut self)
        requires
            old(self).inv(),
        ensures
            rts_rel(*old(self), *final(self)),
    {
        let word = self.pullw();
        self.registers.pc = word.wrapping_add(1);
    }

    /// RTI: pulls the pre-interrupt status byte, then the pre-interrupt
    /// program counter.
    pub fn rti(&mut self)
        requires
            old(self).inv(),
        ensures
            rti_rel(*old(self), *final(self)),
    {
        let status = self.pull();
        self.registers.status = status;
        let pc = self.pullw();
        self.registers.pc = pc;
    }

    /// BRK: forced software interrupt. Pushes the address one past the
    /// padding byte, pushes the status byte with Break set, sets
    /// IRQ-disable and loads the program counter from the IRQ vector.
    pub fn brk(&mut self) -> (r: Result<(), CpuError>)
        requires
            old(self).inv(),
        ensures
            final(self).inv(),
            r is Ok <==> old(self).read_index(0xFFFE) is Some && old(self).read_index(
                0xFFFF,
            ) is Some,
            r is Err ==> (r matches Err(CpuError::Memory(_))) && final(self).a() == old(self).a()
                && final(self).x() == old(self).x() && final(self).y() == old(self).y()
                && final(self).backing().len() == old(self).backing().len() && (forall|a: u16|
                final(self).read_index(a) == old(self).read_index(a)) && (forall|a: u16|
                final(self).write_index(a) == old(self).write_index(a)),
            r is Ok ==> brk_rel(*old(self), *final(self)),
    {
        let pc = self.registers.pc;
        self.pushw(pc.wrapping_add(1));
        let ghost after_pushw = *self;
        self.set_status(Flag::Break, true);
        proof {
            lemma_mem_equal_bus(after_pushw, *self);
        }
        let sr = self.registers.status;
        self.push(sr);
        let ghost after_push = *self;
        self.set_status(Flag::Irq, true);
        proof {
            lemma_mem_equal_bus(after_push, *self);
            ram_resolves(&old(self).ram);
            old(self).cartridge.indices_in_bounds(0xFFFE);
            old(self).cartridge.indices_in_bounds(0xFFFF);
        }
        let vector = match self.loadw(IRQ_VECTOR) {
            Ok(w) => w,
            Err(e) => {
                return Err(CpuError::Memory(e));
            },
        };
        let ghost before_jump = *self;
        self.registers.pc = vector;
        proof {
            lemma_mem_equal_bus(before_jump, *self);
        }
        Ok(())
    }
}

/// Whether the opcode is in this core's instruction table.
pub open spec fn instruction_supported(opcode: u8) -> bool {
    match opcode {
        0x69 | 0x65 | 0x75 | 0x6D | 0x7D | 0x79 | 0x61 | 0x71 => true,  // ADC
        0x29 | 0x25 | 0x35 | 0x2D | 0x3D | 0x39 | 0x21 | 0x31 => true,  // AND
        0x06 | 0x16 | 0x0E | 0x1E | 0x0A => true,  // ASL
        0x90 | 0xB0 | 0xF0 | 0x30 | 0xD0 | 0x10 | 0x50 | 0x70 => true,  // branches
        0x24 | 0x2C => true,  // BIT
        0x00 => true,  // BRK
        0xD8 | 0x18 | 0x58 | 0xB8 => true,  // CLD CLC CLI CLV
        0xC9 | 0xC5 | 0xD5 | 0xCD | 0xDD | 0xD9 | 0xC1 | 0xD1 => true,  // CMP
        0xE0 | 0xE4 | 0xEC => true,  // CPX
        0xC0 | 0xC4 | 0xCC => true,  // CPY
        0xC6 | 0xD6 | 0xCE | 0xDE | 0xCA | 0x88 => true,  // DEC DEX DEY
        0x49 | 0x45 | 0x55 | 0x4D | 0x5D | 0x59 | 0x41 | 0x51 => true,  // EOR
        0xE6 | 0xF6 | 0xEE | 0xFE | 0xE8 | 0xC8 => true,  // INC INX INY
        0x4C | 0x6C | 0x20 => true,  // JMP JSR
        0xA9 | 0xA5 | 0xB5 | 0xAD | 0xBD | 0xB9 | 0xA1 | 0xB1 => true,  // LDA
        0xA2 | 0xA6 | 0xB6 | 0xAE | 0xBE => true,  // LDX
        0xA0 | 0xA4 | 0xB4 | 0xAC | 0xBC => true,  // LDY
        0x46 | 0x56 | 0x4E | 0x5E | 0x4A => true,  // LSR
        0xEA => true,  // NOP
        0x09 | 0x05 | 0x15 | 0x0D | 0x1D | 0x19 | 0x01 | 0x11 => true,  // ORA
        0x48 | 0x08 | 0x68 | 0x28 => true,  // PHA PHP PLA PLP
        0x40 | 0x60 => true,  // RTI RTS
        0x38 | 0xF8 | 0x78 => true,  // SEC SED SEI
        _ => false,
    }
}

/// One status flag was written with `value`; nothing else changed.
pub open spec fn flag_write_rel<M: Memory>(
    pre: CPU<M>,
    post: CPU<M>,
    flag: Flag,
    value: bool,
) -> bool {
    &&& post.inv()
    &&& post.regs() == pre.regs()
    &&& mem_equal(pre, post)
    &&& post.flag_set(flag) == value
    &&& forall|f: Flag| f != flag ==> post.flag_set(f) == pre.flag_set(f)
    &&& bit5_same(pre, post)
}

/// X was stepped to `v` with Z/N set from it; nothing else changed.
pub open spec fn step_x_rel<M: Memory>(pre: CPU<M>, post: CPU<M>, v: u8) -> bool {
    &&& post.inv()
    &&& post.regs() == (Regs { x: v, ..pre.regs() })
    &&& post.zero() == (v == 0)
    &&& post.negative() == (v & 0x80 != 0)
    &&& flags_same_except_zn(pre, post)
    &&& mem_equal(pre, post)
}

/// Y was stepped to `v` with Z/N set from it; nothing else changed.
pub open spec fn step_y_rel<M: Memory>(pre: CPU<M>, post: CPU<M>, v: u8) -> bool {
    &&& post.inv()
    &&& post.regs() == (Regs { y: v, ..pre.regs() })
    &&& post.zero() == (v == 0)
    &&& post.negative() == (v & 0x80 != 0)
    &&& flags_same_except_zn(pre, post)
    &&& mem_equal(pre, post)
}

/// The accumulator was shifted left; Carry took bit 7, Z/N follow the
/// result.
pub open spec fn asla_rel<M: Memory>(pre: CPU<M>, post: CPU<M>) -> bool {
    &&& post.inv()
    &&& post.regs() == (Regs { a: pre.a() << 1, ..pre.regs() })
    &&& post.carry() == (pre.a() & 0x80 == 0x80)
    &&& post.zero() == (pre.a() << 1 == 0)
    &&& post.negative() == ((pre.a() << 1) & 0x80 != 0)
    &&& flags_same_except_czn(pre, post)
    &&& mem_equal(pre, post)
}

/// The accumulator was shifted right; Carry took bit 0, Z/N follow the
/// result.
pub open spec fn lsra_rel<M: Memory>(pre: CPU<M>, post: CPU<M>) -> bool {
    &&& post.inv()
    &&& post.regs() == (Regs { a: pre.a() >> 1, ..pre.regs() })
    &&& post.carry() == (pre.a() & 0x01 == 0x01)
    &&& post.zero() == (pre.a() >> 1 == 0)
    &&& post.negative() == ((pre.a() >> 1) & 0x80 != 0)
    &&& flags_same_except_czn(pre, post)
    &&& mem_equal(pre, post)
}

/// The accumulator was pulled from the stack; flags unchanged.
pub open spec fn pla_rel<M: Memory>(pre: CPU<M>, post: CPU<M>) -> bool {
    &&& post.inv()
    &&& post.regs() == (Regs {
        a: byte_at(pre, stack_addr(pre.s().wrapping_add(1))),
        s: pre.s().wrapping_add(1),
        ..pre.regs()
    })
    &&& post.status() == pre.status()
    &&& mem_equal(pre, post)
}

/// The packed status byte was pulled from the stack.
pub open spec fn plp_rel<M: Memory>(pre: CPU<M>, post: CPU<M>) -> bool {
    &&& post.inv()
    &&& post.regs() == (Regs { s: pre.s().wrapping_add(1), ..pre.regs() })
    &&& post.status() == byte_at(pre, stack_addr(pre.s().wrapping_add(1)))
    &&& mem_equal(pre, post)
}

impl<M: Memory> CPU<M> {
    /// Decodes and executes one instruction whose opcode byte has already
    /// been fetched; the program counter sits at the first operand byte.
    /// An opcode outside the instruction table is a fatal, immediately
    /// reported condition, since its operand length is unknown.
    #[verifier::rlimit(100)]
    pub fn execute(&mut self, instruction: u8) -> (r: Result<(), CpuError>)
        requires
            old(self).inv(),
        ensures
            final(self).inv(),
            !instruction_supported(instruction) ==> r == Err::<(), CpuError>(
                CpuError::UnsupportedOpcode(instruction),
            ) && *final(self) == *old(self),
            instruction == 0x0A ==> r is Ok && asla_rel(*old(self), *final(self)),
            instruction == 0x4A ==> r is Ok && lsra_rel(*old(self), *final(self)),
            instruction == 0x18 ==> r is Ok && flag_write_rel(
                *old(self),
                *final(self),
                Flag::Carry,
                false,
            ),
            instruction == 0xD8 ==> r is Ok && flag_write_rel(
                *old(self),
                *final(self),
                Flag::Decimal,
                false,
            ),
            instruction == 0x58 ==> r is Ok && flag_write_rel(
                *old(self),
                *final(self),
                Flag::Irq,
                false,
            ),
            instruction == 0xB8 ==> r is Ok && flag_write_rel(
                *old(self),
                *final(self),
                Flag::Overflow,
                false,
            ),
            instruction == 0x38 ==> r is Ok && flag_write_rel(
                *old(self),
                *final(self),
                Flag::Carry,
                true,
            ),
            instruction == 0xF8 ==> r is Ok && flag_write_rel(
                *old(self),
                *final(self),
                Flag::Decimal,
                true,
            ),
            instruction == 0x78 ==> r is Ok && flag_write_rel(
                *old(self),
                *final(self),
                Flag::Irq,
                true,
            ),
            instruction == 0xCA ==> r is Ok && step_x_rel(
                *old(self),
                *final(self),
                old(self).x().wrapping_sub(1),
            ),
            instruction == 0xE8 ==> r is Ok && step_x_rel(
                *old(self),
                *final(self),
                old(self).x().wrapping_add(1),
            ),
            instruction == 0x88 ==> r is Ok && step_y_rel(
                *old(self),
                *final(self),
                old(self).y().wrapping_sub(1),
            ),
            instruction == 0xC8 ==> r is Ok && step_y_rel(
                *old(self),
                *final(self),
                old(self).y().wrapping_add(1),
            ),
            instruction == 0xEA ==> r is Ok && *final(self) == *old(self),
            instruction == 0x48 ==> r is Ok && push_rel(*old(self), *final(self), old(self).a()),
            instruction == 0x08 ==> r is Ok && push_rel(
                *old(self),
                *final(self),
                old(self).status(),
            ),
            instruction == 0x68 ==> r is Ok && pla_rel(*old(self), *final(self)),
            instruction == 0x28 ==> r is Ok && plp_rel(*old(self), *final(self)),
            instruction == 0x60 ==> r is Ok && rts_rel(*old(self), *final(self)),
            instruction == 0x40 ==> r is Ok && rti_rel(*old(self), *final(self)),
            instruction == 0x20 ==> ((r is Ok <==> old(self).read_index(old(self).pc()) is Some
                && old(self).read_index(old(self).pc().wrapping_add(1)) is Some) && (r is Ok
                ==> jsr_rel(*old(self), *final(self)))),
            instruction == 0x00 ==> ((r is Ok <==> old(self).read_index(0xFFFE) is Some
                && old(self).read_index(0xFFFF) is Some) && (r is Ok ==> brk_rel(
                *old(self),
                *final(self),
            ))),
            instruction == 0x4C ==> ((r is Ok <==> old(self).read_index(old(self).pc()) is Some
                && old(self).read_index(old(self).pc().wrapping_add(1)) is Some) && (r is Ok
                ==> final(self).regs() == (Regs {
                pc: fetch_word(*old(self)),
                ..old(self).regs()
            }) && final(self).status() == old(self).status() && mem_equal(
                *old(self),
                *final(self),
            ))),
            instruction == 0x6C ==> (r is Ok <==> operand_word_ok(*old(self))
                && fetch_word(*old(self)) != 0xFFFF
                && old(self).read_index(fetch_word(*old(self))) is Some
                && old(self).read_index((fetch_word(*old(self)) + 1) as u16) is Some),
            instruction == 0x6C ==> (r is Ok ==> final(self).regs() == (Regs {
                pc: word_at(*old(self), fetch_word(*old(self))),
                ..old(self).regs()
            }) && final(self).status() == old(self).status() && mem_equal(
                *old(self),
                *final(self),
            )),
            instruction == 0x69 ==> ((r is Ok <==> operand_byte_ok(*old(self))) && (r is Ok
                ==> adc_effect(*old(self), *final(self), old(self).pc(), 1))),
            instruction == 0x65 ==> ((r is Ok <==> operand_byte_ok(*old(self)) && old(self).read_index(zp_addr(*old(self))) is Some) && (r is Ok
                ==> adc_effect(*old(self), *final(self), zp_addr(*old(self)), 1))),
            instruction == 0x75 ==> ((r is Ok <==> operand_byte_ok(*old(self)) && old(self).read_index(zpx_addr(*old(self))) is Some) && (r is Ok
                ==> adc_effect(*old(self), *final(self), zpx_addr(*old(self)), 1))),
            instruction == 0x6D ==> ((r is Ok <==> operand_word_ok(*old(self)) && old(self).read_index(abs_addr(*old(self))) is Some) && (r is Ok
                ==> adc_effect(*old(self), *final(self), abs_addr(*old(self)), 2))),
            instruction == 0x7D ==> ((r is Ok <==> operand_word_ok(*old(self)) && old(self).read_index(absx_addr(*old(self))) is Some) && (r is Ok
                ==> adc_effect(*old(self), *final(self), absx_addr(*old(self)), 2))),
            instruction == 0x79 ==> ((r is Ok <==> operand_word_ok(*old(self)) && old(self).read_index(absy_addr(*old(self))) is Some) && (r is Ok
                ==> adc_effect(*old(self), *final(self), absy_addr(*old(self)), 2))),
            instruction == 0x61 ==> ((r is Ok <==> indx_mode_ok(*old(self)) && old(self).read_index(indx_addr(*old(self))) is Some) && (r is Ok
                ==> adc_effect(*old(self), *final(self), indx_addr(*old(self)), 1))),
            instruction == 0x71 ==> ((r is Ok <==> indy_mode_ok(*old(self)) && old(self).read_index(indy_addr(*old(self))) is Some) && (r is Ok
                ==> adc_effect(*old(self), *final(self), indy_addr(*old(self)), 1))),
            instruction == 0x29 ==> ((r is Ok <==> operand_byte_ok(*old(self))) && (r is Ok
                ==> a_zn_effect(*old(self), *final(self), old(self).a() & byte_at(*old(self), old(self).pc()), 1))),
            instruction == 0x25 ==> ((r is Ok <==> operand_byte_ok(*old(self)) && old(self).read_index(zp_addr(*old(self))) is Some) && (r is Ok
                ==> a_zn_effect(*old(self), *final(self), old(self).a() & byte_at(*old(self), zp_addr(*old(self))), 1))),
            instruction == 0x35 ==> ((r is Ok <==> operand_byte_ok(*old(self)) && old(self).read_index(zpx_addr(*old(self))) is Some) && (r is Ok
                ==> a_zn_effect(*old(self), *final(self), old(self).a() & byte_at(*old(self), zpx_addr(*old(self))), 1))),
            instruction == 0x2D ==> ((r is Ok <==> operand_word_ok(*old(self)) && old(self).read_index(abs_addr(*old(self))) is Some) && (r is Ok
                ==> a_zn_effect(*old(self), *final(self), old(self).a() & byte_at(*old(self), abs_addr(*old(self))), 2))),
            instruction == 0x3D ==> ((r is Ok <==> operand_word_ok(*old(self)) && old(self).read_index(absx_addr(*old(self))) is Some) && (r is Ok
                ==> a_zn_effect(*old(self), *final(self), old(self).a() & byte_at(*old(self), absx_addr(*old(self))), 2))),
            instruction == 0x39 ==> ((r is Ok <==> operand_word_ok(*old(self)) && old(self).read_index(absy_addr(*old(self))) is Some) && (r is Ok
                ==> a_zn_effect(*old(self), *final(self), old(self).a() & byte_at(*old(self), absy_addr(*old(self))), 2))),
            instruction == 0x21 ==> ((r is Ok <==> indx_mode_ok(*old(self)) && old(self).read_index(indx_addr(*old(self))) is Some) && (r is Ok
                ==> a_zn_effect(*old(self), *final(self), old(self).a() & byte_at(*old(self), indx_addr(*old(self))), 1))),
            instruction == 0x31 ==> ((r is Ok <==> indy_mode_ok(*old(self)) && old(self).read_index(indy_addr(*old(self))) is Some) && (r is Ok
                ==> a_zn_effect(*old(self), *final(self), old(self).a() & byte_at(*old(self), indy_addr(*old(self))), 1))),
            instruction == 0x49 ==> ((r is Ok <==> operand_byte_ok(*old(self))) && (r is Ok
                ==> a_zn_effect(*old(self), *final(self), old(self).a() ^ byte_at(*old(self), old(self).pc()), 1))),
            instruction == 0x45 ==> ((r is Ok <==> operand_byte_ok(*old(self)) && old(self).read_index(zp_addr(*old(self))) is Some) && (r is Ok
                ==> a_zn_effect(*old(self), *final(self), old(self).a() ^ byte_at(*old(self), zp_addr(*old(self))), 1))),
            instruction == 0x55 ==> ((r is Ok <==> operand_byte_ok(*old(self)) && old(self).read_index(zpx_addr(*old(self))) is Some) && (r is Ok
                ==> a_zn_effect(*old(self), *final(self), old(self).a() ^ byte_at(*old(self), zpx_addr(*old(self))), 1))),
            instruction == 0x4D ==> ((r is Ok <==> operand_word_ok(*old(self)) && old(self).read_index(abs_addr(*old(self))) is Some) && (r is Ok
                ==> a_zn_effect(*old(self), *final(self), old(self).a() ^ byte_at(*old(self), abs_addr(*old(self))), 2))),
            instruction == 0x5D ==> ((r is Ok <==> operand_word_ok(*old(self)) && old(self).read_index(absx_addr(*old(self))) is Some) && (r is Ok
                ==> a_zn_effect(*old(self), *final(self), old(self).a() ^ byte_at(*old(self), absx_addr(*old(self))), 2))),
            instruction == 0x59 ==> ((r is Ok <==> operand_word_ok(*old(self)) && old(self).read_index(absy_addr(*old(self))) is Some) && (r is Ok
                ==> a_zn_effect(*old(self), *final(self), old(self).a() ^ byte_at(*old(self), absy_addr(*old(self))), 2))),
            instruction == 0x41 ==> ((r is Ok <==> indx_mode_ok(*old(self)) && old(self).read_index(indx_addr(*old(self))) is Some) && (r is Ok
                ==> a_zn_effect(*old(self), *final(self), old(self).a() ^ byte_at(*old(self), indx_addr(*old(self))), 1))),
            instruction == 0x51 ==> ((r is Ok <==> indy_mode_ok(*old(self)) && old(self).read_index(indy_addr(*old(self))) is Some) && (r is Ok
                ==> a_zn_effect(*old(self), *final(self), old(self).a() ^ byte_at(*old(self), indy_addr(*old(self))), 1))),
            instruction == 0x09 ==> ((r is Ok <==> operand_byte_ok(*old(self))) && (r is Ok
                ==> a_zn_effect(*old(self), *final(self), old(self).a() | byte_at(*old(self), old(self).pc()), 1))),
            instruction == 0x05 ==> ((r is Ok <==> operand_byte_ok(*old(self)) && old(self).read_index(zp_addr(*old(self))) is Some) && (r is Ok
                ==> a_zn_effect(*old(self), *final(self), old(self).a() | byte_at(*old(self), zp_addr(*old(self))), 1))),
            instruction == 0x15 ==> ((r is Ok <==> operand_byte_ok(*old(self)) && old(self).read_index(zpx_addr(*old(self))) is Some) && (r is Ok
                ==> a_zn_effect(*old(self), *final(self), old(self).a() | byte_at(*old(self), zpx_addr(*old(self))), 1))),
            instruction == 0x0D ==> ((r is Ok <==> operand_word_ok(*old(self)) && old(self).read_index(abs_addr(*old(self))) is Some) && (r is Ok
                ==> a_zn_effect(*old(self), *final(self), old(self).a() | byte_at(*old(self), abs_addr(*old(self))), 2))),
            instruction == 0x1D ==> ((r is Ok <==> operand_word_ok(*old(self)) && old(self).read_index(absx_addr(*old(self))) is Some) && (r is Ok
                ==> a_zn_effect(*old(self), *final(self), old(self).a() | byte_at(*old(self), absx_addr(*old(self))), 2))),
            instruction == 0x19 ==> ((r is Ok <==> operand_word_ok(*old(self)) && old(self).read_index(absy_addr(*old(self))) is Some) && (r is Ok
                ==> a_zn_effect(*old(self), *final(self), old(self).a() | byte_at(*old(self), absy_addr(*old(self))), 2))),
            instruction == 0x01 ==> ((r is Ok <==> indx_mode_ok(*old(self)) && old(self).read_index(indx_addr(*old(self))) is Some) && (r is Ok
                ==> a_zn_effect(*old(self), *final(self), old(self).a() | byte_at(*old(self), indx_addr(*old(self))), 1))),
            instruction == 0x11 ==> ((r is Ok <==> indy_mode_ok(*old(self)) && old(self).read_index(indy_addr(*old(self))) is Some) && (r is Ok
                ==> a_zn_effect(*old(self), *final(self), old(self).a() | byte_at(*old(self), indy_addr(*old(self))), 1))),
            instruction == 0xA9 ==> ((r is Ok <==> operand_byte_ok(*old(self))) && (r is Ok
                ==> a_zn_effect(*old(self), *final(self), byte_at(*old(self), old(self).pc()), 1))),
            instruction == 0xA5 ==> ((r is Ok <==> operand_byte_ok(*old(self)) && old(self).read_index(zp_addr(*old(self))) is Some) && (r is Ok
                ==> a_zn_effect(*old(self), *final(self), byte_at(*old(self), zp_addr(*old(self))), 1))),
            instruction == 0xB5 ==> ((r is Ok <==> operand_byte_ok(*old(self)) && old(self).read_index(zpx_addr(*old(self))) is Some) && (r is Ok
                ==> a_zn_effect(*old(self), *final(self), byte_at(*old(self), zpx_addr(*old(self))), 1))),
            instruction == 0xAD ==> ((r is Ok <==> operand_word_ok(*old(self)) && old(self).read_index(abs_addr(*old(self))) is Some) && (r is Ok
                ==> a_zn_effect(*old(self), *final(self), byte_at(*old(self), abs_addr(*old(self))), 2))),
            instruction == 0xBD ==> ((r is Ok <==> operand_word_ok(*old(self)) && old(self).read_index(absx_addr(*old(self))) is Some) && (r is Ok
                ==> a_zn_effect(*old(self), *final(self), byte_at(*old(self), absx_addr(*old(self))), 2))),
            instruction == 0xB9 ==> ((r is Ok <==> operand_word_ok(*old(self)) && old(self).read_index(absy_addr(*old(self))) is Some) && (r is Ok
                ==> a_zn_effect(*old(self), *final(self), byte_at(*old(self), absy_addr(*old(self))), 2))),
            instruction == 0xA1 ==> ((r is Ok <==> indx_mode_ok(*old(self)) && old(self).read_index(indx_addr(*old(self))) is Some) && (r is Ok
                ==> a_zn_effect(*old(self), *final(self), byte_at(*old(self), indx_addr(*old(self))), 1))),
            instruction == 0xB1 ==> ((r is Ok <==> indy_mode_ok(*old(self)) && old(self).read_index(indy_addr(*old(self))) is Some) && (r is Ok
                ==> a_zn_effect(*old(self), *final(self), byte_at(*old(self), indy_addr(*old(self))), 1))),
            instruction == 0xA2 ==> ((r is Ok <==> operand_byte_ok(*old(self))) && (r is Ok
                ==> x_zn_effect(*old(self), *final(self), byte_at(*old(self), old(self).pc()), 1))),
            instruction == 0xA6 ==> ((r is Ok <==> operand_byte_ok(*old(self)) && old(self).read_index(zp_addr(*old(self))) is Some) && (r is Ok
                ==> x_zn_effect(*old(self), *final(self), byte_at(*old(self), zp_addr(*old(self))), 1))),
            instruction == 0xB6 ==> ((r is Ok <==> operand_byte_ok(*old(self)) && old(self).read_index(zpy_addr(*old(self))) is Some) && (r is Ok
                ==> x_zn_effect(*old(self), *final(self), byte_at(*old(self), zpy_addr(*old(self))), 1))),
            instruction == 0xAE ==> ((r is Ok <==> operand_word_ok(*old(self)) && old(self).read_index(abs_addr(*old(self))) is Some) && (r is Ok
                ==> x_zn_effect(*old(self), *final(self), byte_at(*old(self), abs_addr(*old(self))), 2))),
            instruction == 0xBE ==> ((r is Ok <==> operand_word_ok(*old(self)) && old(self).read_index(absy_addr(*old(self))) is Some) && (r is Ok
                ==> x_zn_effect(*old(self), *final(self), byte_at(*old(self), absy_addr(*old(self))), 2))),
            instruction == 0xA0 ==> ((r is Ok <==> operand_byte_ok(*old(self))) && (r is Ok
                ==> y_zn_effect(*old(self), *final(self), byte_at(*old(self), old(self).pc()), 1))),
            instruction == 0xA4 ==> ((r is Ok <==> operand_byte_ok(*old(self)) && old(self).read_index(zp_addr(*old(self))) is Some) && (r is Ok
                ==> y_zn_effect(*old(self), *final(self), byte_at(*old(self), zp_addr(*old(self))), 1))),
            instruction == 0xB4 ==> ((r is Ok <==> operand_byte_ok(*old(self)) && old(self).read_index(zpx_addr(*old(self))) is Some) && (r is Ok
                ==> y_zn_effect(*old(self), *final(self), byte_at(*old(self), zpx_addr(*old(self))), 1))),
            instruction == 0xAC ==> ((r is Ok <==> operand_word_ok(*old(self)) && old(self).read_index(abs_addr(*old(self))) is Some) && (r is Ok
                ==> y_zn_effect(*old(self), *final(self), byte_at(*old(self), abs_addr(*old(self))), 2))),
            instruction == 0xBC ==> ((r is Ok <==> operand_word_ok(*old(self)) && old(self).read_index(absx_addr(*old(self))) is Some) && (r is Ok
                ==> y_zn_effect(*old(self), *final(self), byte_at(*old(self), absx_addr(*old(self))), 2))),
            instruction == 0xC9 ==> ((r is Ok <==> operand_byte_ok(*old(self))) && (r is Ok
                ==> cmp_effect(*old(self), *final(self), old(self).a(), old(self).pc(), 1))),
            instruction == 0xC5 ==> ((r is Ok <==> operand_byte_ok(*old(self)) && old(self).read_index(zp_addr(*old(self))) is Some) && (r is Ok
                ==> cmp_effect(*old(self), *final(self), old(self).a(), zp_addr(*old(self)), 1))),
            instruction == 0xD5 ==> ((r is Ok <==> operand_byte_ok(*old(self)) && old(self).read_index(zpx_addr(*old(self))) is Some) && (r is Ok
                ==> cmp_effect(*old(self), *final(self), old(self).a(), zpx_addr(*old(self)), 1))),
            instruction == 0xCD ==> ((r is Ok <==> operand_word_ok(*old(self)) && old(self).read_index(abs_addr(*old(self))) is Some) && (r is Ok
                ==> cmp_effect(*old(self), *final(self), old(self).a(), abs_addr(*old(self)), 2))),
            instruction == 0xDD ==> ((r is Ok <==> operand_word_ok(*old(self)) && old(self).read_index(absx_addr(*old(self))) is Some) && (r is Ok
                ==> cmp_effect(*old(self), *final(self), old(self).a(), absx_addr(*old(self)), 2))),
            instruction == 0xD9 ==> ((r is Ok <==> operand_word_ok(*old(self)) && old(self).read_index(absy_addr(*old(self))) is Some) && (r is Ok
                ==> cmp_effect(*old(self), *final(self), old(self).a(), absy_addr(*old(self)), 2))),
            instruction == 0xC1 ==> ((r is Ok <==> indx_mode_ok(*old(self)) && old(self).read_index(indx_addr(*old(self))) is Some) && (r is Ok
                ==> cmp_effect(*old(self), *final(self), old(self).a(), indx_addr(*old(self)), 1))),
            instruction == 0xD1 ==> ((r is Ok <==> indy_mode_ok(*old(self)) && old(self).read_index(indy_addr(*old(self))) is Some) && (r is Ok
                ==> cmp_effect(*old(self), *final(self), old(self).a(), indy_addr(*old(self)), 1))),
            instruction == 0xE0 ==> ((r is Ok <==> operand_byte_ok(*old(self))) && (r is Ok
                ==> cmp_effect(*old(self), *final(self), old(self).x(), old(self).pc(), 1))),
            instruction == 0xE4 ==> ((r is Ok <==> operand_byte_ok(*old(self)) && old(self).read_index(zp_addr(*old(self))) is Some) && (r is Ok
                ==> cmp_effect(*old(self), *final(self), old(self).x(), zp_addr(*old(self)), 1))),
            instruction == 0xEC ==> ((r is Ok <==> operand_word_ok(*old(self)) && old(self).read_index(abs_addr(*old(self))) is Some) && (r is Ok
                ==> cmp_effect(*old(self), *final(self), old(self).x(), abs_addr(*old(self)), 2))),
            instruction == 0xC0 ==> ((r is Ok <==> operand_byte_ok(*old(self))) && (r is Ok
                ==> cmp_effect(*old(self), *final(self), old(self).y(), old(self).pc(), 1))),
            instruction == 0xC4 ==> ((r is Ok <==> operand_byte_ok(*old(self)) && old(self).read_index(zp_addr(*old(self))) is Some) && (r is Ok
                ==> cmp_effect(*old(self), *final(self), old(self).y(), zp_addr(*old(self)), 1))),
            instruction == 0xCC ==> ((r is Ok <==> operand_word_ok(*old(self)) && old(self).read_index(abs_addr(*old(self))) is Some) && (r is Ok
                ==> cmp_effect(*old(self), *final(self), old(self).y(), abs_addr(*old(self)), 2))),
            instruction == 0x24 ==> ((r is Ok <==> operand_byte_ok(*old(self)) && old(self).read_index(zp_addr(*old(self))) is Some) && (r is Ok
                ==> bit_effect(*old(self), *final(self), zp_addr(*old(self)), 1))),
            instruction == 0x2C ==> ((r is Ok <==> operand_word_ok(*old(self)) && old(self).read_index(abs_addr(*old(self))) is Some) && (r is Ok
                ==> bit_effect(*old(self), *final(self), abs_addr(*old(self)), 2))),
            instruction == 0x06 ==> ((r is Ok <==> operand_byte_ok(*old(self)) && old(self).read_index(zp_addr(*old(self))) is Some && old(self).write_index(zp_addr(*old(self))) is Some) && (r is Ok
                ==> asl_effect(*old(self), *final(self), zp_addr(*old(self)), 1))),
            instruction == 0x16 ==> ((r is Ok <==> operand_byte_ok(*old(self)) && old(self).read_index(zpx_addr(*old(self))) is Some && old(self).write_index(zpx_addr(*old(self))) is Some) && (r is Ok
                ==> asl_effect(*old(self), *final(self), zpx_addr(*old(self)), 1))),
            instruction == 0x0E ==> ((r is Ok <==> operand_word_ok(*old(self)) && old(self).read_index(abs_addr(*old(self))) is Some && old(self).write_index(abs_addr(*old(self))) is Some) && (r is Ok
                ==> asl_effect(*old(self), *final(self), abs_addr(*old(self)), 2))),
            instruction == 0x1E ==> ((r is Ok <==> operand_word_ok(*old(self)) && old(self).read_index(absx_addr(*old(self))) is Some && old(self).write_index(absx_addr(*old(self))) is Some) && (r is Ok
                ==> asl_effect(*old(self), *final(self), absx_addr(*old(self)), 2))),
            instruction == 0x46 ==> ((r is Ok <==> operand_byte_ok(*old(self)) && old(self).read_index(zp_addr(*old(self))) is Some && old(self).write_index(zp_addr(*old(self))) is Some) && (r is Ok
                ==> lsr_effect(*old(self), *final(self), zp_addr(*old(self)), 1))),
            instruction == 0x56 ==> ((r is Ok <==> operand_byte_ok(*old(self)) && old(self).read_index(zpx_addr(*old(self))) is Some && old(self).write_index(zpx_addr(*old(self))) is Some) && (r is Ok
                ==> lsr_effect(*old(self), *final(self), zpx_addr(*old(self)), 1))),
            instruction == 0x4E ==> ((r is Ok <==> operand_word_ok(*old(self)) && old(self).read_index(abs_addr(*old(self))) is Some && old(self).write_index(abs_addr(*old(self))) is Some) && (r is Ok
                ==> lsr_effect(*old(self), *final(self), abs_addr(*old(self)), 2))),
            instruction == 0x5E ==> ((r is Ok <==> operand_word_ok(*old(self)) && old(self).read_index(absx_addr(*old(self))) is Some && old(self).write_index(absx_addr(*old(self))) is Some) && (r is Ok
                ==> lsr_effect(*old(self), *final(self), absx_addr(*old(self)), 2))),
            instruction == 0xE6 ==> ((r is Ok <==> operand_byte_ok(*old(self)) && old(self).read_index(zp_addr(*old(self))) is Some && old(self).write_index(zp_addr(*old(self))) is Some) && (r is Ok
                ==> inc_effect(*old(self), *final(self), zp_addr(*old(self)), 1))),
            instruction == 0xF6 ==> ((r is Ok <==> operand_byte_ok(*old(self)) && old(self).read_index(zpx_addr(*old(self))) is Some && old(self).write_index(zpx_addr(*old(self))) is Some) && (r is Ok
                ==> inc_effect(*old(self), *final(self), zpx_addr(*old(self)), 1))),
            instruction == 0xEE ==> ((r is Ok <==> operand_word_ok(*old(self)) && old(self).read_index(abs_addr(*old(self))) is Some && old(self).write_index(abs_addr(*old(self))) is Some) && (r is Ok
                ==> inc_effect(*old(self), *final(self), abs_addr(*old(self)), 2))),
            instruction == 0xFE ==> ((r is Ok <==> operand_word_ok(*old(self)) && old(self).read_index(absx_addr(*old(self))) is Some && old(self).write_index(absx_addr(*old(self))) is Some) && (r is Ok
                ==> inc_effect(*old(self), *final(self), absx_addr(*old(self)), 2))),
            instruction == 0xC6 ==> ((r is Ok <==> operand_byte_ok(*old(self)) && old(self).read_index(zp_addr(*old(self))) is Some && old(self).write_index(zp_addr(*old(self))) is Some) && (r is Ok
                ==> dec_effect(*old(self), *final(self), zp_addr(*old(self)), 1))),
            instruction == 0xD6 ==> ((r is Ok <==> operand_byte_ok(*old(self)) && old(self).read_index(zpx_addr(*old(self))) is Some && old(self).write_index(zpx_addr(*old(self))) is Some) && (r is Ok
                ==> dec_effect(*old(self), *final(self), zpx_addr(*old(self)), 1))),
            instruction == 0xCE ==> ((r is Ok <==> operand_word_ok(*old(self)) && old(self).read_index(abs_addr(*old(self))) is Some && old(self).write_index(abs_addr(*old(self))) is Some) && (r is Ok
                ==> dec_effect(*old(self), *final(self), abs_addr(*old(self)), 2))),
            instruction == 0xDE ==> ((r is Ok <==> operand_word_ok(*old(self)) && old(self).read_index(absx_addr(*old(self))) is Some && old(self).write_index(absx_addr(*old(self))) is Some) && (r is Ok
                ==> dec_effect(*old(self), *final(self), absx_addr(*old(self)), 2))),
            instruction == 0x90 ==> ((r is Ok <==> old(self).read_index(old(self).pc()) is Some)
                && (r is Ok ==> branch_rel(*old(self), *final(self), !old(self).carry()))),
            instruction == 0xB0 ==> ((r is Ok <==> old(self).read_index(old(self).pc()) is Some)
                && (r is Ok ==> branch_rel(*old(self), *final(self), old(self).carry()))),
            instruction == 0xF0 ==> ((r is Ok <==> old(self).read_index(old(self).pc()) is Some)
                && (r is Ok ==> branch_rel(*old(self), *final(self), old(self).zero()))),
            instruction == 0xD0 ==> ((r is Ok <==> old(self).read_index(old(self).pc()) is Some)
                && (r is Ok ==> branch_rel(*old(self), *final(self), !old(self).zero()))),
            instruction == 0x30 ==> ((r is Ok <==> old(self).read_index(old(self).pc()) is Some)
                && (r is Ok ==> branch_rel(*old(self), *final(self), old(self).negative()))),
            instruction == 0x10 ==> ((r is Ok <==> old(self).read_index(old(self).pc()) is Some)
                && (r is Ok ==> branch_rel(*old(self), *final(self), !old(self).negative()))),
            instruction == 0x50 ==> ((r is Ok <==> old(self).read_index(old(self).pc()) is Some)
                && (r is Ok ==> branch_rel(*old(self), *final(self), !old(self).overflow()))),
            instruction == 0x70 ==> ((r is Ok <==> old(self).read_index(old(self).pc()) is Some)
                && (r is Ok ==> branch_rel(*old(self), *final(self), old(self).overflow()))),
    {
        match instruction {
            // ADC
            0x69 => {
                let address = self.immediate_mode();
                self.adc(address)
            },
            0x65 => match self.zero_page_mode() {
                Ok(address) => self.adc(address),
                Err(e) => Err(e),
            },
            0x75 => match self.zero_page_x_mode() {
                Ok(address) => self.adc(address),
                Err(e) => Err(e),
            },
            0x6D => match self.absolute_mode() {
                Ok(address) => self.adc(address),
                Err(e) => Err(e),
            },
            0x7D => match self.absolute_x_mode() {
                Ok(address) => self.adc(address),
                Err(e) => Err(e),
            },
            0x79 => match self.absolute_y_mode() {
                Ok(address) => self.adc(address),
                Err(e) => Err(e),
            },
            0x61 => match self.indirect_x_mode() {
                Ok(address) => self.adc(address),
                Err(e) => Err(e),
            },
            0x71 => match self.indirect_y_mode() {
                Ok(address) => self.adc(address),
                Err(e) => Err(e),
            },
            // AND
            0x29 => {
                let address = self.immediate_mode();
                self.and(address)
            },
            0x25 => match self.zero_page_mode() {
                Ok(address) => self.and(address),
                Err(e) => Err(e),
            },
            0x35 => match self.zero_page_x_mode() {
                Ok(address) => self.and(address),
                Err(e) => Err(e),
            },
            0x2D => match self.absolute_mode() {
                Ok(address) => self.and(address),
                Err(e) => Err(e),
            },
            0x3D => match self.absolute_x_mode() {
                Ok(address) => self.and(address),
                Err(e) => Err(e),
            },
            0x39 => match self.absolute_y_mode() {
                Ok(address) => self.and(address),
                Err(e) => Err(e),
            },
            0x21 => match self.indirect_x_mode() {
                Ok(address) => self.and(address),
                Err(e) => Err(e),
            },
            0x31 => match self.indirect_y_mode() {
                Ok(address) => self.and(address),
                Err(e) => Err(e),
            },
            // ASL
            0x06 => match self.zero_page_mode() {
                Ok(address) => self.asl(address),
                Err(e) => Err(e),
            },
            0x16 => match self.zero_page_x_mode() {
                Ok(address) => self.asl(address),
                Err(e) => Err(e),
            },
            0x0E => match self.absolute_mode() {
                Ok(address) => self.asl(address),
                Err(e) => Err(e),
            },
            0x1E => match self.absolute_x_mode() {
                Ok(address) => self.asl(address),
                Err(e) => Err(e),
            },
            0x0A => {
                self.asla();
                Ok(())
            },
            // Branches
            0x90 => self.bcc(),
            0xB0 => self.bcs(),
            0xF0 => self.beq(),
            0x30 => self.bmi(),
            0xD0 => self.bne(),
            0x10 => self.bpl(),
            0x50 => self.bvc(),
            0x70 => self.bvs(),
            // BIT
            0x24 => match self.zero_page_mode() {
                Ok(address) => self.bit(address),
                Err(e) => Err(e),
            },
            0x2C => match self.absolute_mode() {
                Ok(address) => self.bit(address),
                Err(e) => Err(e),
            },
            // BRK
            0x00 => self.brk(),
            // Flag clears
            0xD8 => {
                self.cld();
                Ok(())
            },
            0x18 => {
                self.clc();
                Ok(())
            },
            0x58 => {
                self.cli();
                Ok(())
            },
            0xB8 => {
                self.clv();
                Ok(())
            },
            // CMP
            0xC9 => {
                let address = self.immediate_mode();
                self.cmp(address)
            },
            0xC5 => match self.zero_page_mode() {
                Ok(address) => self.cmp(address),
                Err(e) => Err(e),
            },
            0xD5 => match self.zero_page_x_mode() {
                Ok(address) => self.cmp(address),
                Err(e) => Err(e),
            },
            0xCD => match self.absolute_mode() {
                Ok(address) => self.cmp(address),
                Err(e) => Err(e),
            },
            0xDD => match self.absolute_x_mode() {
                Ok(address) => self.cmp(address),
                Err(e) => Err(e),
            },
            0xD9 => match self.absolute_y_mode() {
                Ok(address) => self.cmp(address),
                Err(e) => Err(e),
            },
            0xC1 => match self.indirect_x_mode() {
                Ok(address) => self.cmp(address),
                Err(e) => Err(e),
            },
            0xD1 => match self.indirect_y_mode() {
                Ok(address) => self.cmp(address),
                Err(e) => Err(e),
            },
            // CPX
            0xE0 => {
                let address = self.immediate_mode();
                self.cpx(address)
            },
            0xE4 => match self.zero_page_mode() {
                Ok(address) => self.cpx(address),
                Err(e) => Err(e),
            },
            0xEC => match self.absolute_mode() {
                Ok(address) => self.cpx(address),
                Err(e) => Err(e),
            },
            // CPY
            0xC0 => {
                let address = self.immediate_mode();
                self.cpy(address)
            },
            0xC4 => match self.zero_page_mode() {
                Ok(address) => self.cpy(address),
                Err(e) => Err(e),
            },
            0xCC => match self.absolute_mode() {
                Ok(address) => self.cpy(address),
                Err(e) => Err(e),
            },
            // DEC, DEX, DEY
            0xC6 => match self.zero_page_mode() {
                Ok(address) => self.dec(address),
                Err(e) => Err(e),
            },
            0xD6 => match self.zero_page_x_mode() {
                Ok(address) => self.dec(address),
                Err(e) => Err(e),
            },
            0xCE => match self.absolute_mode() {
                Ok(address) => self.dec(address),
                Err(e) => Err(e),
            },
            0xDE => match self.absolute_x_mode() {
                Ok(address) => self.dec(address),
                Err(e) => Err(e),
            },
            0xCA => {
                self.dex();
                Ok(())
            },
            0x88 => {
                self.dey();
                Ok(())
            },
            // EOR
            0x49 => {
                let address = self.immediate_mode();
                self.eor(address)
            },
            0x45 => match self.zero_page_mode() {
                Ok(address) => self.eor(address),
                Err(e) => Err(e),
            },
            0x55 => match self.zero_page_x_mode() {
                Ok(address) => self.eor(address),
                Err(e) => Err(e),
            },
            0x4D => match self.absolute_mode() {
                Ok(address) => self.eor(address),
                Err(e) => Err(e),
            },
            0x5D => match self.absolute_x_mode() {
                Ok(address) => self.eor(address),
                Err(e) => Err(e),
            },
            0x59 => match self.absolute_y_mode() {
                Ok(address) => self.eor(address),
                Err(e) => Err(e),
            },
            0x41 => match self.indirect_x_mode() {
                Ok(address) => self.eor(address),
                Err(e) => Err(e),
            },
            0x51 => match self.indirect_y_mode() {
                Ok(address) => self.eor(address),
                Err(e) => Err(e),
            },
            // INC, INX, INY
            0xE6 => match self.zero_page_mode() {
                Ok(address) => self.inc(address),
                Err(e) => Err(e),
            },
            0xF6 => match self.zero_page_x_mode() {
                Ok(address) => self.inc(address),
                Err(e) => Err(e),
            },
            0xEE => match self.absolute_mode() {
                Ok(address) => self.inc(address),
                Err(e) => Err(e),
            },
            0xFE => match self.absolute_x_mode() {
                Ok(address) => self.inc(address),
                Err(e) => Err(e),
            },
            0xE8 => {
                self.inx();
                Ok(())
            },
            0xC8 => {
                self.iny();
                Ok(())
            },
            // JMP, JSR
            0x4C => self.jmpa(),
            0x6C => self.jmpi(),
            0x20 => self.jsr(),
            // LDA
            0xA9 => {
                let address = self.immediate_mode();
                self.lda(address)
            },
            0xA5 => match self.zero_page_mode() {
                Ok(address) => self.lda(address),
                Err(e) => Err(e),
            },
            0xB5 => match self.zero_page_x_mode() {
                Ok(address) => self.lda(address),
                Err(e) => Err(e),
            },
            0xAD => match self.absolute_mode() {
                Ok(address) => self.lda(address),
                Err(e) => Err(e),
            },
            0xBD => match self.absolute_x_mode() {
                Ok(address) => self.lda(address),
                Err(e) => Err(e),
            },
            0xB9 => match self.absolute_y_mode() {
                Ok(address) => self.lda(address),
                Err(e) => Err(e),
            },
            0xA1 => match self.indirect_x_mode() {
                Ok(address) => self.lda(address),
                Err(e) => Err(e),
            },
            0xB1 => match self.indirect_y_mode() {
                Ok(address) => self.lda(address),
                Err(e) => Err(e),
            },
            // LDX
            0xA2 => {
                let address = self.immediate_mode();
                self.ldx(address)
            },
            0xA6 => match self.zero_page_mode() {
                Ok(address) => self.ldx(address),
                Err(e) => Err(e),
            },
            0xB6 => match self.zero_page_y_mode() {
                Ok(address) => self.ldx(address),
                Err(e) => Err(e),
            },
            0xAE => match self.absolute_mode() {
                Ok(address) => self.ldx(address),
                Err(e) => Err(e),
            },
            0xBE => match self.absolute_y_mode() {
                Ok(address) => self.ldx(address),
                Err(e) => Err(e),
            },
            // LDY
            0xA0 => {
                let address = self.immediate_mode();
                self.ldy(address)
            },
            0xA4 => match self.zero_page_mode() {
                Ok(address) => self.ldy(address),
                Err(e) => Err(e),
            },
            0xB4 => match self.zero_page_x_mode() {
                Ok(address) => self.ldy(address),
                Err(e) => Err(e),
            },
            0xAC => match self.absolute_mode() {
                Ok(address) => self.ldy(address),
                Err(e) => Err(e),
            },
            0xBC => match self.absolute_x_mode() {
                Ok(address) => self.ldy(address),
                Err(e) => Err(e),
            },
            // LSR
            0x46 => match self.zero_page_mode() {
                Ok(address) => self.lsr(address),
                Err(e) => Err(e),
            },
            0x56 => match self.zero_page_x_mode() {
                Ok(address) => self.lsr(address),
                Err(e) => Err(e),
            },
            0x4E => match self.absolute_mode() {
                Ok(address) => self.lsr(address),
                Err(e) => Err(e),
            },
            0x5E => match self.absolute_x_mode() {
                Ok(address) => self.lsr(address),
                Err(e) => Err(e),
            },
            0x4A => {
                self.lsra();
                Ok(())
            },
            // NOP
            0xEA => {
                self.nop();
                Ok(())
            },
            // ORA
            0x09 => {
                let address = self.immediate_mode();
                self.ora(address)
            },
            0x05 => match self.zero_page_mode() {
                Ok(address) => self.ora(address),
                Err(e) => Err(e),
            },
            0x15 => match self.zero_page_x_mode() {
                Ok(address) => self.ora(address),
                Err(e) => Err(e),
            },
            0x0D => match self.absolute_mode() {
                Ok(address) => self.ora(address),
                Err(e) => Err(e),
            },
            0x1D => match self.absolute_x_mode() {
                Ok(address) => self.ora(address),
                Err(e) => Err(e),
            },
            0x19 => match self.absolute_y_mode() {
                Ok(address) => self.ora(address),
                Err(e) => Err(e),
            },
            0x01 => match self.indirect_x_mode() {
                Ok(address) => self.ora(address),
                Err(e) => Err(e),
            },
            0x11 => match self.indirect_y_mode() {
                Ok(address) => self.ora(address),
                Err(e) => Err(e),
            },
            // Push and pull
            0x48 => {
                self.pha();
                Ok(())
            },
            0x08 => {
                self.php();
                Ok(())
            },
            0x68 => {
                self.pla();
                Ok(())
            },
            0x28 => {
                self.plp();
                Ok(())
            },
            // Returns
            0x40 => {
                self.rti();
                Ok(())
            },
            0x60 => {
                self.rts();
                Ok(())
            },
            // Flag sets
            0x38 => {
                self.sec();
                Ok(())
            },
            0xF8 => {
                self.sed();
                Ok(())
            },
            0x78 => {
                self.sei();
                Ok(())
            },
            _ => Err(CpuError::UnsupportedOpcode(instruction)),
        }
    }
}

/// A JSR followed directly by an RTS resumes execution exactly two bytes
/// past where JSR began reading its operand — that is, three bytes past the
/// JSR opcode — with the stack pointer and every other register restored.
pub proof fn lemma_jsr_rts_round_trip<M: Memory>(c0: CPU<M>, c1: CPU<M>, c2: CPU<M>)
    requires
        c0.inv(),
        jsr_rel(c0, c1),
        rts_rel(c1, c2),
    ensures
        c2.pc() == c0.pc().wrapping_add(2),
        c2.s() == c0.s(),
        c2.a() == c0.a(),
        c2.x() == c0.x(),
        c2.y() == c0.y(),
        c2.status() == c0.status(),
{
    ram_resolves(&c0.ram);
    vstd::arithmetic::div_mod::lemma_fundamental_div_mod(c0.pc().wrapping_add(1) as int, 256);
}

/// Stack discipline is last-in first-out: a pull straight after a push
/// returns the pushed byte and brings the stack pointer (and every other
/// register) back to its value before the push.
pub proof fn lemma_stack_push_pull<M: Memory>(c0: CPU<M>, c1: CPU<M>, c2: CPU<M>, v: u8, u: u8)
    requires
        c0.inv(),
        push_rel(c0, c1, v),
        pull_rel(c1, c2, u),
    ensures
        u == v,
        c2.regs() == c0.regs(),
        c2.status() == c0.status(),
{
    ram_resolves(&c0.ram);
}

/// Word form of the stack law: a word pull straight after a word push
/// returns the pushed word and restores the stack pointer.
pub proof fn lemma_stack_pushw_pullw<M: Memory>(c0: CPU<M>, c1: CPU<M>, c2: CPU<M>, w: u16, u: u16)
    requires
        c0.inv(),
        pushw_rel(c0, c1, w),
        pullw_rel(c1, c2, u),
    ensures
        u == w,
        c2.regs() == c0.regs(),
        c2.status() == c0.status(),
{
    ram_resolves(&c0.ram);
    vstd::arithmetic::div_mod::lemma_fundamental_div_mod(w as int, 256);
}

/// Addresses in the mirrored RAM ranges resolve to the same cell as their
/// canonical address below $0800, for loads and stores alike, so a load at a
/// mirror returns the byte held at the canonical address.
pub proof fn lemma_ram_mirroring<M: Memory>(cpu: &CPU<M>, address: u16)
    requires
        cpu.inv(),
        0x800 <= address <= 0x1FFF,
    ensures
        cpu.read_index(address) == cpu.read_index(address % 0x800),
        cpu.write_index(address) == cpu.write_index(address % 0x800),
        byte_at(*cpu, address) == byte_at(*cpu, address % 0x800),
{
    assert((address % 0x800) % 0x800 == address % 0x800);
}

/// A store through the bus to a canonical RAM address is visible at every
/// mirror of that address.
pub proof fn lemma_ram_mirroring_store<M: Memory>(
    pre: CPU<M>,
    post: CPU<M>,
    address: u16,
    value: u8,
)
    requires
        pre.inv(),
        0x800 <= address <= 0x1FFF,
        bus_stored(pre, post, address % 0x800, value),
    ensures
        byte_at(post, address) == value,
{
    ram_resolves(&pre.ram);
    assert((address % 0x800) % 0x800 == address % 0x800);
}

} // verus!
