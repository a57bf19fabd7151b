use vstd::prelude::*;
use crate::rom::{Mirroring, Rom};

verus! {

/// Size of one switchable PRG window.
pub const PRG_WINDOW: usize = 16384;

/// Size of one switchable CHR window.
pub const CHR_WINDOW: usize = 4096;

/// The serial-shift-register family: writes to 0x8000-0xFFFF feed a 5-bit
/// shift register whose completed value lands in one of four registers.
#[derive(Debug)]
pub struct Mapper1 {
    pub rom: Rom,
    pub prg_bank: u8,
    pub shift: u8,
    pub control: u8,
    pub prg_mode: u8,
    pub chr_mode: u8,
    pub chr_bank_0: u8,
    pub chr_bank_1: u8,
    pub prg_offset_0: usize,
    pub prg_offset_1: usize,
    pub chr_offset_0: usize,
    pub chr_offset_1: usize,
}

/// A bank register read as a signed byte.
pub open spec fn signed_bank(index: int) -> int {
    if index >= 0x80 {
        index - 0x100
    } else {
        index
    }
}

/// Start of bank `index` in a memory of `len` bytes cut in `size`-byte banks:
/// the index is taken modulo the bank count, negative ones counting from the end.
pub open spec fn bank_offset(index: int, len: int, size: int) -> int {
    (signed_bank(index) % (len / size)) * size
}

/// The shift register after one more bit, taken from the low bit of `value`.
pub open spec fn shifted_in(shift: u8, value: u8) -> u8 {
    (shift >> 1u8) | ((value & 1) << 4u8)
}

/// The registers (control, CHR 0, CHR 1, PRG) after `value` is latched
/// into the one that `address` selects.
pub open spec fn latch(regs: (u8, u8, u8, u8), address: u16, value: u8) -> (u8, u8, u8, u8) {
    if address < 0xA000 {
        (value, regs.1, regs.2, regs.3)
    } else if address < 0xC000 {
        (regs.0, value, regs.2, regs.3)
    } else if address < 0xE000 {
        (regs.0, regs.1, value, regs.3)
    } else {
        (regs.0, regs.1, regs.2, value)
    }
}

/// Mirroring selected by the low two bits of the control register.
pub open spec fn control_mirroring(control: u8) -> Mirroring {
    if control & 3 == 0 {
        Mirroring::Single0
    } else if control & 3 == 1 {
        Mirroring::Single1
    } else if control & 3 == 2 {
        Mirroring::Vertical
    } else {
        Mirroring::Horizontal
    }
}

fn bank_offset_exec(index: i32, len: usize, size: usize) -> (r: usize)
    requires
        -1 <= index <= 255,
        1 <= size <= len <= 0x0100_0000,
        len as int % size as int == 0,
    ensures
        r == bank_offset(index as int, len as int, size as int),
        r + size <= len,
{
    let n = len / size;
    assert(n >= 1) by (nonlinear_arith)
        requires
            1 <= size <= len,
            n == len as int / size as int,
    ;
    let i: i32 = if index >= 0x80 {
        index - 0x100
    } else {
        index
    };
    let r: usize = if i >= 0 {
        (i as usize) % n
    } else {
        let m = ((-i) as usize) % n;
        if m == 0 {
            0
        } else {
            n - m
        }
    };
    proof {
        let ii = i as int;
        let nn = n as int;
        if ii < 0 {
            let m = (-ii) % nn;
            let q = (-ii) / nn;
            assert(-ii == q * nn + m && 0 <= m < nn) by (nonlinear_arith)
                requires
                    nn >= 1,
                    m == (-ii) % nn,
                    q == (-ii) / nn,
            ;
            if m == 0 {
                assert(ii == (-q) * nn + 0) by (nonlinear_arith)
                    requires
                        -ii == q * nn + m,
                        m == 0,
                ;
                vstd::arithmetic::div_mod::lemma_fundamental_div_mod_converse(ii, nn, -q, 0);
            } else {
                assert(ii == (-q - 1) * nn + (nn - m)) by (nonlinear_arith)
                    requires
                        -ii == q * nn + m,
                ;
                vstd::arithmetic::div_mod::lemma_fundamental_div_mod_converse(
                    ii,
                    nn,
                    -q - 1,
                    nn - m,
                );
            }
        }
        assert(r < nn);
        assert(r * size + size <= len) by (nonlinear_arith)
            requires
                r < nn,
                nn == len as int / size as int,
                len as int % size as int == 0,
                size >= 1,
        ;
    }
    r * size
}

impl Mapper1 {
    pub open spec fn wf(&self) -> bool {
        &&& self.rom.wf()
        &&& self.rom.has_prg()
        &&& self.prg_mode == (self.control >> 2u8) & 3
        &&& self.chr_mode == (self.control >> 4u8) & 1
        &&& self.prg_offset_0 + PRG_WINDOW <= self.rom.prg@.len()
        &&& self.prg_offset_1 + PRG_WINDOW <= self.rom.prg@.len()
        &&& self.chr_offset_0 + CHR_WINDOW <= self.rom.chr@.len()
        &&& self.chr_offset_1 + CHR_WINDOW <= self.rom.chr@.len()
    }

    pub open spec fn prg_offset(&self, index: int) -> int {
        bank_offset(index, self.rom.prg@.len() as int, PRG_WINDOW as int)
    }

    pub open spec fn chr_offset(&self, index: int) -> int {
        bank_offset(index, self.rom.chr@.len() as int, CHR_WINDOW as int)
    }

    /// The window offsets that the modes and bank registers select.
    pub open spec fn offsets_follow_registers(&self) -> bool {
        let b = self.prg_bank;
        let c0 = self.chr_bank_0;
        &&& (self.prg_mode <= 1 ==> self.prg_offset_0 == self.prg_offset((b & 0xFE) as int)
            && self.prg_offset_1 == self.prg_offset((b | 1) as int))
        &&& (self.prg_mode == 2 ==> self.prg_offset_0 == 0 && self.prg_offset_1 == self.prg_offset(
            b as int,
        ))
        &&& (self.prg_mode == 3 ==> self.prg_offset_0 == self.prg_offset(b as int)
            && self.prg_offset_1 == self.prg_offset(-1))
        &&& (self.chr_mode == 0 ==> self.chr_offset_0 == self.chr_offset((c0 & 0xFE) as int)
            && self.chr_offset_1 == self.chr_offset((c0 | 1) as int))
        &&& (self.chr_mode == 1 ==> self.chr_offset_0 == self.chr_offset(c0 as int)
            && self.chr_offset_1 == self.chr_offset(self.chr_bank_1 as int))
    }

    /// Control, CHR bank 0, CHR bank 1 and PRG bank.
    pub open spec fn regs(&self) -> (u8, u8, u8, u8) {
        (self.control, self.chr_bank_0, self.chr_bank_1, self.prg_bank)
    }

    pub open spec fn same_windows(&self, other: &Mapper1) -> bool {
        &&& self.prg_mode == other.prg_mode
        &&& self.chr_mode == other.chr_mode
        &&& self.prg_offset_0 == other.prg_offset_0
        &&& self.prg_offset_1 == other.prg_offset_1
        &&& self.chr_offset_0 == other.chr_offset_0
        &&& self.chr_offset_1 == other.chr_offset_1
    }

    /// Nothing but CHR and PRG-RAM contents differs between `self` and `other`.
    pub open spec fn same_registers(&self, other: &Mapper1) -> bool {
        &&& self.same_windows(other)
        &&& self.regs() == other.regs()
        &&& self.shift == other.shift
        &&& self.rom.mirroring == other.rom.mirroring
        &&& self.rom.prg == other.rom.prg
        &&& self.rom.mapper == other.rom.mapper
    }

    /// The ROM data of `self` and `other` agree.
    pub open spec fn same_rom(&self, other: &Mapper1) -> bool {
        &&& self.rom.prg == other.rom.prg
        &&& self.rom.chr == other.rom.chr
        &&& self.rom.ram == other.rom.ram
        &&& self.rom.mapper == other.rom.mapper
    }

    /// The byte at `address` through the current windows.
    pub open spec fn read_spec(&self, address: u16) -> u8 {
        if address < 0x1000 {
            self.rom.chr@[self.chr_offset_0 + address]
        } else if address < 0x2000 {
            self.rom.chr@[self.chr_offset_1 + address - 0x1000]
        } else if address < 0x8000 {
            self.rom.ram@[address - 0x6000]
        } else if address < 0xC000 {
            self.rom.prg@[self.prg_offset_0 + address - 0x8000]
        } else {
            self.rom.prg@[self.prg_offset_1 + address - 0xC000]
        }
    }

    /// Where a CHR write at `address < 0x2000` lands.
    pub open spec fn chr_index(&self, address: u16) -> int {
        if address < 0x1000 {
            self.chr_offset_0 + address
        } else {
            self.chr_offset_1 + address - 0x1000
        }
    }

    pub fn from_rom(rom: Rom) -> (r: Self)
        requires
            rom.wf(),
            rom.has_prg(),
        ensures
            r.wf(),
            r.rom == rom,
            r.shift == 0x10,
            r.control == 0 && r.prg_mode == 0 && r.chr_mode == 0,
            r.prg_bank == 0 && r.chr_bank_0 == 0 && r.chr_bank_1 == 0,
            r.prg_offset_0 == 0 && r.chr_offset_0 == 0 && r.chr_offset_1 == 0,
            r.prg_offset_1 == r.prg_offset(-1),
    {
        let prg_offset_1 = Self::prg_bank_offset(&rom, -1);
        assert((0u8 >> 2u8) & 3 == 0 && (0u8 >> 4u8) & 1 == 0) by (bit_vector);
        Mapper1 {
            rom,
            prg_bank: 0,
            shift: 0x10,
            control: 0,
            prg_mode: 0,
            chr_mode: 0,
            chr_bank_0: 0,
            chr_bank_1: 0,
            prg_offset_0: 0,
            prg_offset_1,
            chr_offset_0: 0,
            chr_offset_1: 0,
        }
    }

    pub fn get_mirroring(&self) -> (r: Mirroring)
        ensures
            r == self.rom.mirroring,
    {
        self.rom.mirroring
    }

    fn prg_bank_offset(rom: &Rom, index: i32) -> (r: usize)
        requires
            rom.wf(),
            rom.has_prg(),
            -1 <= index <= 255,
        ensures
            r == bank_offset(index as int, rom.prg@.len() as int, PRG_WINDOW as int),
            r + PRG_WINDOW <= rom.prg@.len(),
    {
        bank_offset_exec(index, rom.prg.len(), PRG_WINDOW)
    }

    fn chr_bank_offset(rom: &Rom, index: i32) -> (r: usize)
        requires
            rom.wf(),
            rom.has_prg(),
            -1 <= index <= 255,
        ensures
            r == bank_offset(index as int, rom.chr@.len() as int, CHR_WINDOW as int),
            r + CHR_WINDOW <= rom.chr@.len(),
    {
        bank_offset_exec(index, rom.chr.len(), CHR_WINDOW)
    }

    /// Recomputes the four window offsets from the modes and bank registers.
    fn update_offsets(&mut self)
        requires
            old(self).wf(),
        ensures
            final(self).wf(),
            final(self).offsets_follow_registers(),
            final(self).rom == old(self).rom,
            final(self).prg_bank == old(self).prg_bank,
            final(self).shift == old(self).shift,
            final(self).control == old(self).control,
            final(self).prg_mode == old(self).prg_mode,
            final(self).chr_mode == old(self).chr_mode,
            final(self).chr_bank_0 == old(self).chr_bank_0,
            final(self).chr_bank_1 == old(self).chr_bank_1,
    {
        let b = self.prg_bank as i32;
        if self.prg_mode <= 1 {
            self.prg_offset_0 = Self::prg_bank_offset(&self.rom, (self.prg_bank & 0xFE) as i32);
            self.prg_offset_1 = Self::prg_bank_offset(&self.rom, (self.prg_bank | 1) as i32);
        } else if self.prg_mode == 2 {
            self.prg_offset_0 = 0;
            self.prg_offset_1 = Self::prg_bank_offset(&self.rom, b);
        } else {
            self.prg_offset_0 = Self::prg_bank_offset(&self.rom, b);
            self.prg_offset_1 = Self::prg_bank_offset(&self.rom, -1);
        }
        let c0 = self.chr_bank_0 as i32;
        if self.chr_mode == 0 {
            self.chr_offset_0 = Self::chr_bank_offset(&self.rom, (self.chr_bank_0 & 0xFE) as i32);
            self.chr_offset_1 = Self::chr_bank_offset(&self.rom, (self.chr_bank_0 | 1) as i32);
        } else {
            self.chr_offset_0 = Self::chr_bank_offset(&self.rom, c0);
            self.chr_offset_1 = Self::chr_bank_offset(&self.rom, self.chr_bank_1 as i32);
        }
    }

    /// Decodes the control register: mirroring, PRG mode and CHR mode.
    fn write_control(&mut self, value: u8)
        requires
            old(self).wf(),
        ensures
            final(self).wf(),
            final(self).offsets_follow_registers(),
            final(self).same_rom(old(self)),
            final(self).rom.mirroring == control_mirroring(value),
            final(self).control == value,
            final(self).chr_mode == (value >> 4u8) & 1,
            final(self).prg_mode == (value >> 2u8) & 3,
            final(self).prg_bank == old(self).prg_bank,
            final(self).shift == old(self).shift,
            final(self).chr_bank_0 == old(self).chr_bank_0,
            final(self).chr_bank_1 == old(self).chr_bank_1,
    {
        self.control = value;
        self.chr_mode = (value >> 4u8) & 1;
        self.prg_mode = (value >> 2u8) & 3;
        let m = value & 3;
        if m == 0 {
            self.rom.mirroring = Mirroring::Single0;
        } else if m == 1 {
            self.rom.mirroring = Mirroring::Single1;
        } else if m == 2 {
            self.rom.mirroring = Mirroring::Vertical;
        } else {
            self.rom.mirroring = Mirroring::Horizontal;
        }
        self.update_offsets();
    }

    fn write_chr_bank_0(&mut self, value: u8)
        requires
            old(self).wf(),
        ensures
            final(self).wf(),
            final(self).offsets_follow_registers(),
            final(self).rom == old(self).rom,
            final(self).chr_bank_0 == value,
            final(self).chr_bank_1 == old(self).chr_bank_1,
            final(self).prg_bank == old(self).prg_bank,
            final(self).shift == old(self).shift,
            final(self).control == old(self).control,
            final(self).prg_mode == old(self).prg_mode,
            final(self).chr_mode == old(self).chr_mode,
    {
        self.chr_bank_0 = value;
        self.update_offsets();
    }

    fn write_chr_bank_1(&mut self, value: u8)
        requires
            old(self).wf(),
        ensures
            final(self).wf(),
            final(self).offsets_follow_registers(),
            final(self).rom == old(self).rom,
            final(self).chr_bank_1 == value,
            final(self).chr_bank_0 == old(self).chr_bank_0,
            final(self).prg_bank == old(self).prg_bank,
            final(self).shift == old(self).shift,
            final(self).control == old(self).control,
            final(self).prg_mode == old(self).prg_mode,
            final(self).chr_mode == old(self).chr_mode,
    {
        self.chr_bank_1 = value;
        self.update_offsets();
    }

    fn write_prg_bank(&mut self, value: u8)
        requires
            old(self).wf(),
        ensures
            final(self).wf(),
            final(self).offsets_follow_registers(),
            final(self).rom == old(self).rom,
            final(self).prg_bank == value,
            final(self).chr_bank_0 == old(self).chr_bank_0,
            final(self).chr_bank_1 == old(self).chr_bank_1,
            final(self).shift == old(self).shift,
            final(self).control == old(self).control,
            final(self).prg_mode == old(self).prg_mode,
            final(self).chr_mode == old(self).chr_mode,
    {
        self.prg_bank = value;
        self.update_offsets();
    }

    /// Latches a completed 5-bit value into the register that the address selects.
    fn write_register(&mut self, address: u16, value: u8)
        requires
            old(self).wf(),
        ensures
            final(self).wf(),
            final(self).offsets_follow_registers(),
            final(self).same_rom(old(self)),
            final(self).shift == old(self).shift,
            final(self).regs() == latch(old(self).regs(), address, value),
            final(self).rom.mirroring == if address < 0xA000 {
                control_mirroring(value)
            } else {
                old(self).rom.mirroring
            },
    {
        if address < 0xA000 {
            self.write_control(value);
        } else if address < 0xC000 {
            self.write_chr_bank_0(value);
        } else if address < 0xE000 {
            self.write_chr_bank_1(value);
        } else {
            self.write_prg_bank(value);
        }
    }

    /// What feeding `value` at `address` into the shift register guarantees of the new state `n`.
    pub open spec fn load_post(m: Mapper1, n: Mapper1, address: u16, value: u8) -> bool {
        &&& n.wf()
        &&& n.same_rom(&m)
        &&& value & 0x80 != 0 ==> n.shift == 0x10 && n.regs() == latch(m.regs(), 0x8000, m.control | 0x0C)
            && n.rom.mirroring == control_mirroring(m.control | 0x0C) && n.offsets_follow_registers()
        &&& value & 0x80 == 0 && m.shift & 1 == 0 ==> n.shift == shifted_in(m.shift, value)
            && n.regs() == m.regs() && n.rom.mirroring == m.rom.mirroring && n.same_windows(&m)
        &&& value & 0x80 == 0 && m.shift & 1 == 1 ==> n.shift == 0x10 && n.regs() == latch(
            m.regs(),
            address,
            shifted_in(m.shift, value),
        ) && n.rom.mirroring == (if address < 0xA000 {
            control_mirroring(shifted_in(m.shift, value))
        } else {
            m.rom.mirroring
        }) && n.offsets_follow_registers()
    }

    /// What a write of `value` at `address` guarantees of the new state `n`.
    pub open spec fn write_post(m: Mapper1, n: Mapper1, address: u16, value: u8) -> bool {
        &&& n.wf()
        &&& address < 0x2000 ==> n.rom.chr@ == m.rom.chr@.update(m.chr_index(address), value)
            && n.rom.ram == m.rom.ram && n.same_registers(&m)
        &&& 0x6000 <= address < 0x8000 ==> n.rom.ram@ == m.rom.ram@.update(address - 0x6000, value)
            && n.rom.chr == m.rom.chr && n.same_registers(&m)
        &&& address >= 0x8000 ==> Mapper1::load_post(m, n, address, value)
    }

    /// Feeds one write to 0x8000-0xFFFF into the serial shift register.
    fn load_register(&mut self, address: u16, value: u8)
        requires
            old(self).wf(),
        ensures
            Mapper1::load_post(*old(self), *final(self), address, value),
    {
        assert(value & 0x80 != 0 <==> value & 0x80 == 0x80) by (bit_vector);
        if value & 0x80 == 0x80 {
            self.shift = 0x10;
            let c = self.control | 0x0C;
            self.write_control(c);
        } else {
            let complete = self.shift & 1 == 1;
            self.shift = (self.shift >> 1u8) | ((value & 1) << 4u8);
            if complete {
                let v = self.shift;
                self.write_register(address, v);
                self.shift = 0x10;
            }
        }
    }

    pub fn read(&self, address: u16) -> (r: u8)
        requires
            self.wf(),
            address < 0x2000 || address >= 0x6000,
        ensures
            r == self.read_spec(address),
    {
        if address < 0x1000 {
            self.rom.chr[self.chr_offset_0 + address as usize]
        } else if address < 0x2000 {
            self.rom.chr[self.chr_offset_1 + (address - 0x1000) as usize]
        } else if address < 0x8000 {
            self.rom.ram[(address - 0x6000) as usize]
        } else if address < 0xC000 {
            self.rom.prg[self.prg_offset_0 + (address - 0x8000) as usize]
        } else {
            self.rom.prg[self.prg_offset_1 + (address - 0xC000) as usize]
        }
    }

    /// CHR and PRG-RAM are written through the windows; PRG-ROM writes go to
    /// the shift register.
    pub fn write(&mut self, address: u16, value: u8)
        requires
            old(self).wf(),
            address < 0x2000 || address >= 0x6000,
        ensures
            Mapper1::write_post(*old(self), *final(self), address, value),
    {
        if address < 0x1000 {
            self.rom.chr.set(self.chr_offset_0 + address as usize, value);
        } else if address < 0x2000 {
            self.rom.chr.set(self.chr_offset_1 + (address - 0x1000) as usize, value);
        } else if address < 0x8000 {
            self.rom.ram.set((address - 0x6000) as usize, value);
        } else {
            self.load_register(address, value);
        }
    }
}

} // verus!
