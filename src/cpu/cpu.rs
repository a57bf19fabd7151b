use vstd::prelude::*;
use super::description::{describe, AddressingMode, Instruction};
use super::memory::{ram_index, CpuMemory, RAM_SIZE};
use crate::ppu::{wrap16, wrap64, wrap8};

verus! {

/// Vector of the non-maskable interrupt handler.
pub const NMI_VECTOR: u16 = 0xFFFA;

/// Vector of the reset handler.
pub const RESET_VECTOR: u16 = 0xFFFC;

/// Vector of the IRQ and BRK handler.
pub const IRQ_VECTOR: u16 = 0xFFFE;

/// Cycles that servicing an interrupt takes.
pub const INTERRUPT_CYCLES: usize = 7;

/// The interrupt waiting to be serviced at the start of the next step.
#[derive(Debug, Clone, Copy, PartialEq, Eq, Structural)]
pub enum Interrupt {
    Idle,
    NMI,
    IRQ,
}

/// What one instruction works with: its operand address, the program
/// counter after it, and its description.
#[derive(Debug, Clone, Copy)]
pub struct Info {
    pub address: u16,
    pub pc: u16,
    pub mode: AddressingMode,
    pub i: Instruction,
}

impl Info {
    pub fn new() -> (r: Info)
        ensures
            r.address == 0,
            r.pc == 0,
            r.mode == AddressingMode::Absolute,
            r.i.opcode == 0,
    {
        Info { address: 0, pc: 0, mode: AddressingMode::Absolute, i: describe(0) }
    }
}

/// Why a step could not complete.
#[derive(Debug, Clone, Copy, PartialEq, Eq, Structural)]
pub enum CpuError {
    /// The opcode at `pc` is one that this core does not implement.
    UnsupportedOpcode { opcode: u8, pc: u16 },
    /// An access reached an address that nothing answers.
    UnmappedAccess(u16),
}

/// The 6502 core and the bus it owns.
#[derive(Debug)]
pub struct CPU {
    pub mem: CpuMemory,
    pub pc: u16,
    pub sp: u8,
    pub a: u8,
    pub x: u8,
    pub y: u8,
    pub c: u8,
    pub z: u8,
    pub i: u8,
    pub d: u8,
    pub v: u8,
    pub n: u8,
    pub b: u8,
    pub u: u8,
    pub interrupt: Interrupt,
    pub cycles: u64,
    pub stall: usize,
}

/// The status byte: C, Z, I, D, B, U, V, N at bits 0 to 7.
pub open spec fn pack_flags(c: u8, z: u8, i: u8, d: u8, b: u8, u: u8, v: u8, n: u8) -> u8 {
    c | (z << 1u8) | (i << 2u8) | (d << 3u8) | (b << 4u8) | (u << 5u8) | (v << 6u8) | (n << 7u8)
}

/// Bit `k` of `value`, as 0 or 1.
pub open spec fn bit(value: u8, k: u8) -> u8 {
    (value >> k) & 1
}

/// The stack pointer after a push.
pub open spec fn dec8(x: u8) -> u8 {
    if x == 0 {
        255
    } else {
        (x - 1) as u8
    }
}

/// The stack pointer before a pop.
pub open spec fn inc8(x: u8) -> u8 {
    if x == 255 {
        0
    } else {
        (x + 1) as u8
    }
}

/// RAM index of stack slot `sp`.
pub open spec fn stack_slot(sp: u8) -> int {
    0x100 + sp
}

/// Addresses `a` and `b` lie on different 256-byte pages.
pub open spec fn different_pages(a: u16, b: u16) -> bool {
    a & 0xFF00 != b & 0xFF00
}

/// Little-endian word at `address` and the byte after it.
pub open spec fn word_at(m: CpuMemory, address: u16) -> u16 {
    (m.load_value(address) as u16) | ((m.load_value(wrap16(address + 1)) as u16) << 8u16)
}

/// Where the 6502 fetches the high byte of a pointer at `address`: the
/// same page, as the low byte does not carry.
pub open spec fn bug_high(address: u16) -> u16 {
    (address & 0xFF00) | (wrap16(address + 1) & 0xFF)
}

/// The word at `address` as the 6502 reads pointers.
pub open spec fn buggy_word_at(m: CpuMemory, address: u16) -> u16 {
    (m.load_value(address) as u16) | ((m.load_value(bug_high(address)) as u16) << 8u16)
}

/// Branch target: `pc + 2` plus the signed offset.
pub open spec fn relative_target(pc: u16, offset: u8) -> u16 {
    ((pc + 2 + offset + if offset < 0x80 {
        0int
    } else {
        0xFF00int
    }) % 0x10000) as u16
}

/// Whether `a` and `b` lie on different 256-byte pages.
pub fn is_different_pages(a: u16, b: u16) -> (r: bool)
    ensures
        r == different_pages(a, b),
{
    a & 0xFF00 != b & 0xFF00
}

impl CPU {
    pub open spec fn wf(&self) -> bool {
        &&& self.mem.wf()
        &&& self.c <= 1 && self.z <= 1 && self.i <= 1 && self.d <= 1
        &&& self.b <= 1 && self.u <= 1 && self.v <= 1 && self.n <= 1
    }

    pub open spec fn flags(&self) -> u8 {
        pack_flags(self.c, self.z, self.i, self.d, self.b, self.u, self.v, self.n)
    }

    /// `s` with the flags unpacked from `value`.
    pub open spec fn with_flags(s: CPU, value: u8) -> CPU {
        CPU {
            c: bit(value, 0),
            z: bit(value, 1),
            i: bit(value, 2),
            d: bit(value, 3),
            b: bit(value, 4),
            u: bit(value, 5),
            v: bit(value, 6),
            n: bit(value, 7),
            ..s
        }
    }

    /// `s` with Z and N set from `value`.
    pub open spec fn with_zn(s: CPU, value: u8) -> CPU {
        CPU {
            z: if value == 0 {
                1
            } else {
                0
            },
            n: if value & 0x80 == 0 {
                0
            } else {
                1
            },
            ..s
        }
    }

    /// `t` is `s` after `value` was pushed.
    pub open spec fn push_post(s: CPU, t: CPU, value: u8) -> bool {
        &&& t.mem.ram@ == s.mem.ram@.update(stack_slot(s.sp), value)
        &&& t == (CPU { mem: CpuMemory { ram: t.mem.ram, ..s.mem }, sp: dec8(s.sp), ..s })
    }

    /// The byte that a pop from `s` returns.
    pub open spec fn top(s: CPU) -> u8 {
        s.mem.ram@[stack_slot(inc8(s.sp))]
    }

    /// `t` is `s` after the word `value` was pushed, high byte first.
    pub open spec fn push_word_post(s: CPU, t: CPU, value: u16) -> bool {
        &&& t.mem.ram@ == s.mem.ram@.update(stack_slot(s.sp), (value >> 8u16) as u8).update(
            stack_slot(dec8(s.sp)),
            (value & 0xFF) as u8,
        )
        &&& t == (CPU { mem: CpuMemory { ram: t.mem.ram, ..s.mem }, sp: dec8(dec8(s.sp)), ..s })
    }

    /// The word that two pops from `s` return, low byte first.
    pub open spec fn top_word(s: CPU) -> u16 {
        (s.mem.ram@[stack_slot(inc8(s.sp))] as u16) | ((s.mem.ram@[stack_slot(inc8(inc8(s.sp)))]
            as u16) << 8u16)
    }

    /// `t` differs from `s` at most in the recorded fault.
    pub open spec fn same_but_fault(s: CPU, t: CPU) -> bool {
        &&& t == (CPU { mem: CpuMemory { fault: t.mem.fault, ..s.mem }, ..s })
        &&& s.mem.fault.is_some() ==> t.mem.fault == s.mem.fault
    }

    /// What a write of `value` to `address` guarantees of the new state `t`;
    /// a write to 0x4014 runs OAM DMA and stalls the CPU for 513 or 514 cycles.
    pub open spec fn write_post(s: CPU, t: CPU, address: u16, value: u8) -> bool {
        &&& t.wf()
        &&& address == 0x4014 ==> CpuMemory::dma_post(s.mem, t.mem, value) && t == (CPU {
            mem: t.mem,
            stall: sat_add(s.stall, if s.cycles % 2 == 1 { 514 } else { 513 }),
            ..s
        })
        &&& address != 0x4014 ==> CpuMemory::write_post(s.mem, t.mem, address, value) && t == (
        CPU { mem: t.mem, ..s })
    }

    /// `s` after an instruction read `address`.
    pub open spec fn read_state(s: CPU, address: u16) -> CPU {
        CPU { mem: CpuMemory::after_read(s.mem, address), ..s }
    }

    pub fn new(mem: CpuMemory) -> (r: CPU)
        requires
            mem.wf(),
        ensures
            r.wf(),
            r.mem == mem,
            r.pc == 0 && r.sp == 0 && r.a == 0 && r.x == 0 && r.y == 0,
            r.flags() == 0,
            r.interrupt == Interrupt::Idle,
            r.cycles == 0 && r.stall == 0,
    {
        let r = CPU {
            mem,
            pc: 0,
            sp: 0,
            a: 0,
            x: 0,
            y: 0,
            c: 0,
            z: 0,
            i: 0,
            d: 0,
            v: 0,
            n: 0,
            b: 0,
            u: 0,
            interrupt: Interrupt::Idle,
            cycles: 0,
            stall: 0,
        };
        assert(pack_flags(0, 0, 0, 0, 0, 0, 0, 0) == 0) by (bit_vector);
        r
    }

    /// PC from the reset vector, SP = 0xFD, status = 0x24.
    pub fn reset(&mut self)
        requires
            old(self).wf(),
        ensures
            final(self).wf(),
            final(self).flags() == 0x24,
            *final(self) == (CPU {
                pc: word_at(old(self).mem, RESET_VECTOR),
                sp: 0xFD,
                ..CPU::with_flags(*old(self), 0x24)
            }),
    {
        self.pc = self.read_word(RESET_VECTOR);
        self.sp = 0xFD;
        self.set_flags(0x24);
        proof {
            lemma_flags_round_trip(0x24);
        }
    }

    pub fn get_flags(&self) -> (r: u8)
        ensures
            r == self.flags(),
    {
        self.c | (self.z << 1u8) | (self.i << 2u8) | (self.d << 3u8) | (self.b << 4u8) | (self.u
            << 5u8) | (self.v << 6u8) | (self.n << 7u8)
    }

    pub fn set_flags(&mut self, value: u8)
        ensures
            *final(self) == CPU::with_flags(*old(self), value),
            final(self).wf() <== old(self).wf(),
    {
        self.c = (value >> 0u8) & 1;
        self.z = (value >> 1u8) & 1;
        self.i = (value >> 2u8) & 1;
        self.d = (value >> 3u8) & 1;
        self.b = (value >> 4u8) & 1;
        self.u = (value >> 5u8) & 1;
        self.v = (value >> 6u8) & 1;
        self.n = (value >> 7u8) & 1;
        proof {
            lemma_bits_are_flags(value);
        }
    }

    pub fn set_z(&mut self, value: u8)
        ensures
            *final(self) == (CPU { z: CPU::with_zn(*old(self), value).z, ..*old(self) }),
    {
        self.z = if value == 0 {
            1
        } else {
            0
        };
    }

    pub fn set_n(&mut self, value: u8)
        ensures
            *final(self) == (CPU { n: CPU::with_zn(*old(self), value).n, ..*old(self) }),
    {
        self.n = if value & 0x80 == 0 {
            0
        } else {
            1
        };
    }

    pub fn set_zn(&mut self, value: u8)
        ensures
            *final(self) == CPU::with_zn(*old(self), value),
    {
        self.set_z(value);
        self.set_n(value);
    }

    /// A read by an instruction, through the bus.
    pub fn read(&mut self, address: u16) -> (r: u8)
        requires
            old(self).wf(),
        ensures
            final(self).wf(),
            r == old(self).mem.peek(address),
            *final(self) == CPU::read_state(*old(self), address),
    {
        self.mem.read(address)
    }

    /// A write by an instruction, through the bus; 0x4014 starts OAM DMA.
    pub fn write(&mut self, address: u16, value: u8)
        requires
            old(self).wf(),
        ensures
            CPU::write_post(*old(self), *final(self), address, value),
    {
        if address == 0x4014 {
            self.mem.oam_dma(value);
            let extra: usize = if self.cycles % 2 == 1 {
                514
            } else {
                513
            };
            if self.stall <= usize::MAX - extra {
                self.stall = self.stall + extra;
            } else {
                self.stall = usize::MAX;
            }
        } else {
            self.mem.write(address, value);
        }
    }

    /// Pushes a byte onto the stack page.
    pub fn push(&mut self, value: u8)
        requires
            old(self).wf(),
        ensures
            final(self).wf(),
            CPU::push_post(*old(self), *final(self), value),
    {
        let address: u16 = 0x100 + self.sp as u16;
        self.mem.write(address, value);
        self.sp = self.sp.wrapping_sub(1);
    }

    /// Pops a byte from the stack page.
    pub fn pop(&mut self) -> (r: u8)
        requires
            old(self).wf(),
        ensures
            final(self).wf(),
            r == CPU::top(*old(self)),
            *final(self) == (CPU { sp: inc8(old(self).sp), ..*old(self) }),
    {
        self.sp = self.sp.wrapping_add(1);
        let address: u16 = 0x100 + self.sp as u16;
        self.mem.read(address)
    }

    /// Pushes a word, high byte first.
    pub fn push_word(&mut self, value: u16)
        requires
            old(self).wf(),
        ensures
            final(self).wf(),
            CPU::push_word_post(*old(self), *final(self), value),
    {
        self.push((value >> 8u16) as u8);
        self.push((value & 0xFF) as u8);
    }

    /// Pops a word, low byte first.
    pub fn pop_word(&mut self) -> (r: u16)
        requires
            old(self).wf(),
        ensures
            final(self).wf(),
            r == CPU::top_word(*old(self)),
            *final(self) == (CPU { sp: inc8(inc8(old(self).sp)), ..*old(self) }),
    {
        let lo = self.pop() as u16;
        let hi = self.pop() as u16;
        lo | (hi << 8u16)
    }

    /// The little-endian word at `address`, read without side effects.
    pub fn read_word(&mut self, address: u16) -> (r: u16)
        requires
            old(self).wf(),
        ensures
            final(self).wf(),
            r == word_at(old(self).mem, address),
            CPU::same_but_fault(*old(self), *final(self)),
            final(self).mem == CpuMemory::after_load(
                CpuMemory::after_load(old(self).mem, address),
                wrap16(address + 1),
            ),
    {
        let lo = self.mem.load(address) as u16;
        let hi = self.mem.load(address.wrapping_add(1)) as u16;
        lo | (hi << 8u16)
    }

    /// The word at `address` with the high byte taken from the same page.
    pub fn read_word_bug(&mut self, address: u16) -> (r: u16)
        requires
            old(self).wf(),
        ensures
            final(self).wf(),
            r == buggy_word_at(old(self).mem, address),
            CPU::same_but_fault(*old(self), *final(self)),
            final(self).mem == after_bug_word(old(self).mem, address),
    {
        let addr_hi = (address & 0xFF00) | (address.wrapping_add(1) & 0xFF);
        let lo = self.mem.load(address) as u16;
        let hi = self.mem.load(addr_hi) as u16;
        lo | (hi << 8u16)
    }

    pub fn trigger_nmi(&mut self)
        ensures
            *final(self) == (CPU { interrupt: Interrupt::NMI, ..*old(self) }),
    {
        self.interrupt = Interrupt::NMI;
    }

    pub fn trigger_irq(&mut self)
        ensures
            *final(self) == (CPU { interrupt: Interrupt::IRQ, ..*old(self) }),
    {
        self.interrupt = Interrupt::IRQ;
    }
}

/// `a + b`, or the largest `usize` if that overflows.
pub open spec fn sat_add(a: usize, b: usize) -> usize {
    if a + b > usize::MAX {
        usize::MAX
    } else {
        (a + b) as usize
    }
}

/// Unpacking the flags of `value` and packing them again gives `value`.
pub proof fn lemma_flags_round_trip(value: u8)
    ensures
        pack_flags(
            bit(value, 0),
            bit(value, 1),
            bit(value, 2),
            bit(value, 3),
            bit(value, 4),
            bit(value, 5),
            bit(value, 6),
            bit(value, 7),
        ) == value,
{
    assert(((value >> 0u8) & 1) | (((value >> 1u8) & 1) << 1u8) | (((value >> 2u8) & 1) << 2u8) | (((value
        >> 3u8) & 1) << 3u8) | (((value >> 4u8) & 1) << 4u8) | (((value >> 5u8) & 1) << 5u8) | (((
    value >> 6u8) & 1) << 6u8) | (((value >> 7u8) & 1) << 7u8) == value) by (bit_vector);
}

/// Each unpacked flag is 0 or 1.
pub proof fn lemma_bits_are_flags(value: u8)
    ensures
        forall|k: u8| #![trigger bit(value, k)] bit(value, k) <= 1,
{
    assert forall|k: u8| #![trigger bit(value, k)] bit(value, k) <= 1 by {
        assert((value >> k) & 1 <= 1) by (bit_vector);
    }
}

/// Packing eight flags and unpacking the byte gives the flags back.
pub proof fn lemma_flags_unpack_pack(c: u8, z: u8, i: u8, d: u8, b: u8, u: u8, v: u8, n: u8)
    requires
        c <= 1 && z <= 1 && i <= 1 && d <= 1 && b <= 1 && u <= 1 && v <= 1 && n <= 1,
    ensures
        bit(pack_flags(c, z, i, d, b, u, v, n), 0) == c,
        bit(pack_flags(c, z, i, d, b, u, v, n), 1) == z,
        bit(pack_flags(c, z, i, d, b, u, v, n), 2) == i,
        bit(pack_flags(c, z, i, d, b, u, v, n), 3) == d,
        bit(pack_flags(c, z, i, d, b, u, v, n), 4) == b,
        bit(pack_flags(c, z, i, d, b, u, v, n), 5) == u,
        bit(pack_flags(c, z, i, d, b, u, v, n), 6) == v,
        bit(pack_flags(c, z, i, d, b, u, v, n), 7) == n,
{
    let p = c | (z << 1u8) | (i << 2u8) | (d << 3u8) | (b << 4u8) | (u << 5u8) | (v << 6u8) | (n << 7u8);
    assert(((p >> 0u8) & 1) == c && ((p >> 1u8) & 1) == z && ((p >> 2u8) & 1) == i && ((p >> 3u8) & 1)
        == d && ((p >> 4u8) & 1) == b && ((p >> 5u8) & 1) == u && ((p >> 6u8) & 1) == v && ((p
        >> 7u8) & 1) == n) by (bit_vector)
        requires
            c <= 1 && z <= 1 && i <= 1 && d <= 1 && b <= 1 && u <= 1 && v <= 1 && n <= 1,
            p == c | (z << 1u8) | (i << 2u8) | (d << 3u8) | (b << 4u8) | (u << 5u8) | (v << 6u8) | (n
                << 7u8),
    ;
}

/// The memory after loading the word at `address`.
pub open spec fn after_word(m: CpuMemory, address: u16) -> CpuMemory {
    CpuMemory::after_load(CpuMemory::after_load(m, address), wrap16(address + 1))
}

/// The memory after loading a pointer at `address` the way the 6502 does.
pub open spec fn after_bug_word(m: CpuMemory, address: u16) -> CpuMemory {
    CpuMemory::after_load(CpuMemory::after_load(m, address), bug_high(address))
}

/// The memory after the loads that resolving an operand makes: only
/// loads of unanswered addresses change it, by recording a fault.
pub open spec fn operand_memory(s: CPU, pc: u16, mode: AddressingMode) -> CpuMemory {
    let m = s.mem;
    match mode {
        AddressingMode::Absolute | AddressingMode::AbsoluteX | AddressingMode::AbsoluteY => after_word(
            m,
            pc,
        ),
        AddressingMode::Accumulator | AddressingMode::Immediate | AddressingMode::Implied => m,
        AddressingMode::IndexedIndirect => after_bug_word(
            CpuMemory::after_load(m, pc),
            ((m.load_value(pc) + s.x) as u16) & 0xFF,
        ),
        AddressingMode::Indirect => after_bug_word(after_word(m, pc), word_at(m, pc)),
        AddressingMode::IndirectIndexed => after_bug_word(
            CpuMemory::after_load(m, pc),
            m.load_value(pc) as u16,
        ),
        _ => CpuMemory::after_load(m, pc),
    }
}

/// The operand address of an instruction at `s.pc` whose operand bytes
/// start at `pc`, and whether indexing crossed a page.
pub open spec fn operand_address(s: CPU, pc: u16, mode: AddressingMode) -> (u16, bool) {
    let m = s.mem;
    match mode {
        AddressingMode::Absolute => (word_at(m, pc), false),
        AddressingMode::AbsoluteX => {
            let base = word_at(m, pc);
            let a = wrap16(base + s.x);
            (a, different_pages(base, a))
        },
        AddressingMode::AbsoluteY => {
            let base = word_at(m, pc);
            let a = wrap16(base + s.y);
            (a, different_pages(base, a))
        },
        AddressingMode::Accumulator => (0, false),
        AddressingMode::Immediate => (pc, false),
        AddressingMode::Implied => (0, false),
        AddressingMode::IndexedIndirect => (
            buggy_word_at(m, ((m.load_value(pc) + s.x) as u16) & 0xFF),
            false,
        ),
        AddressingMode::Indirect => (buggy_word_at(m, word_at(m, pc)), false),
        AddressingMode::IndirectIndexed => {
            let base = buggy_word_at(m, m.load_value(pc) as u16);
            let a = wrap16(base + s.y);
            (a, different_pages(base, a))
        },
        AddressingMode::Relative => (relative_target(s.pc, m.load_value(pc)), false),
        AddressingMode::ZeroPage => (m.load_value(pc) as u16, false),
        AddressingMode::ZeroPageX => (wrap8(m.load_value(pc) + s.x) as u16, false),
        AddressingMode::ZeroPageY => (wrap8(m.load_value(pc) + s.y) as u16, false),
    }
}

impl CPU {
    /// The operand address for `instruction` with operand bytes at `pc`, and
    /// the page-cross penalty it earns.
    pub fn get_address(&mut self, pc: u16, instruction: &Instruction) -> (r: (u16, usize))
        requires
            old(self).wf(),
        ensures
            final(self).wf(),
            r.0 == operand_address(*old(self), pc, instruction.addressing).0,
            r.1 == if operand_address(*old(self), pc, instruction.addressing).1 {
                instruction.page_cycles
            } else {
                0
            },
            *final(self) == (CPU {
                mem: operand_memory(*old(self), pc, instruction.addressing),
                ..*old(self)
            }),
    {
        let mut page_crossed = false;
        let address: u16 = match instruction.addressing {
            AddressingMode::Absolute => self.read_word(pc),
            AddressingMode::AbsoluteX => {
                let base = self.read_word(pc);
                let addr = base.wrapping_add(self.x as u16);
                page_crossed = is_different_pages(base, addr);
                addr
            },
            AddressingMode::AbsoluteY => {
                let base = self.read_word(pc);
                let addr = base.wrapping_add(self.y as u16);
                page_crossed = is_different_pages(base, addr);
                addr
            },
            AddressingMode::Accumulator => 0,
            AddressingMode::Immediate => pc,
            AddressingMode::Implied => 0,
            AddressingMode::IndexedIndirect => {
                let zp = ((self.mem.load(pc) as u16) + (self.x as u16)) & 0xFF;
                self.read_word_bug(zp)
            },
            AddressingMode::Indirect => {
                let pointer = self.read_word(pc);
                self.read_word_bug(pointer)
            },
            AddressingMode::IndirectIndexed => {
                let zp = self.mem.load(pc) as u16;
                let base = self.read_word_bug(zp);
                let addr = base.wrapping_add(self.y as u16);
                page_crossed = is_different_pages(base, addr);
                addr
            },
            AddressingMode::Relative => {
                let offset = self.mem.load(pc);
                let target: u32 = self.pc as u32 + 2 + offset as u32 + if offset < 0x80 {
                    0u32
                } else {
                    0xFF00u32
                };
                (target % 0x10000) as u16
            },
            AddressingMode::ZeroPage => self.mem.load(pc) as u16,
            AddressingMode::ZeroPageX => self.mem.load(pc).wrapping_add(self.x) as u16,
            AddressingMode::ZeroPageY => self.mem.load(pc).wrapping_add(self.y) as u16,
        };
        let cycles: usize = if page_crossed {
            instruction.page_cycles
        } else {
            0
        };
        (address, cycles)
    }
}

/// The stack pointer wraps within 0x00..=0xFF, and a pop returns the byte
/// that the last push stored, restoring the stack pointer.
pub proof fn lemma_push_pop(s: CPU, t: CPU, value: u8)
    requires
        s.wf(),
        CPU::push_post(s, t, value),
    ensures
        CPU::top(t) == value,
        inc8(t.sp) == s.sp,
        t.sp == (s.sp + 255) % 256,
{
}

/// Pushing a word and popping one gives the word back.
pub proof fn lemma_push_pop_word(s: CPU, t: CPU, value: u16)
    requires
        s.wf(),
        CPU::push_word_post(s, t, value),
    ensures
        CPU::top_word(t) == value,
        inc8(inc8(t.sp)) == s.sp,
{
    let hi = (value >> 8u16) as u8;
    let lo = (value & 0xFF) as u8;
    assert(((lo as u16) | ((hi as u16) << 8u16)) == value) by (bit_vector)
        requires
            hi == (value >> 8u16) as u8,
            lo == (value & 0xFF) as u8,
    ;
}

/// A word in RAM off the zero page reads as its low byte, then the byte after it.
pub proof fn lemma_read16_ram(m: CpuMemory, address: u16)
    requires
        0x100 <= address < 0x1FFF,
    ensures
        word_at(m, address) == (m.peek(address) as u16) | ((m.peek((address + 1) as u16) as u16)
            << 8u16),
        word_at(m, address) == (m.ram@[ram_index(address as int)] as u16) | ((m.ram@[ram_index(
            address + 1,
        )] as u16) << 8u16),
{
}

/// A pointer at the last byte of a page takes its high byte from the start
/// of the same page.
pub proof fn lemma_read16_buggy_page_wrap(m: CpuMemory, address: u16)
    requires
        address & 0xFF == 0xFF,
    ensures
        buggy_word_at(m, address) == (m.load_value(address) as u16) | ((m.load_value(
            address & 0xFF00,
        ) as u16) << 8u16),
{
    let next = wrap16(address + 1);
    if address == 0xFFFF {
        assert(next == 0);
        assert((0xFFFFu16 & 0xFF00) | (0u16 & 0xFF) == 0xFFFFu16 & 0xFF00) by (bit_vector);
    } else {
        assert(next == address + 1);
        assert((address & 0xFF00) | (((address + 1) as u16) & 0xFF) == address & 0xFF00)
            by (bit_vector)
            requires
                address & 0xFF == 0xFF,
                address < 0xFFFF,
        ;
    }
}

} // verus!
