use vstd::prelude::*;
use crate::rom::{Mirroring, Rom, PRG_BANK_SIZE};

verus! {

/// The simple bank-select family: a switchable low PRG window and a high
/// window fixed to the last bank.
#[derive(Debug)]
pub struct Mapper2 {
    pub rom: Rom,
    pub banks_count: usize,
    pub current_bank: usize,
    pub last_bank: usize,
}

impl Mapper2 {
    pub open spec fn wf(&self) -> bool {
        &&& self.rom.wf()
        &&& self.rom.has_prg()
        &&& self.banks_count == self.rom.prg@.len() as int / PRG_BANK_SIZE as int
        &&& self.current_bank < self.banks_count
        &&& self.last_bank == self.banks_count - 1
    }

    /// The byte at `address`: CHR below 0x2000, PRG-RAM at 0x6000, PRG-ROM above.
    pub open spec fn read_spec(&self, address: u16) -> u8 {
        if address < 0x2000 {
            self.rom.chr@[address as int]
        } else if address < 0x8000 {
            self.rom.ram@[address - 0x6000]
        } else if address < 0xC000 {
            self.rom.prg@[self.current_bank * PRG_BANK_SIZE + address - 0x8000]
        } else {
            self.rom.prg@[self.last_bank * PRG_BANK_SIZE + address - 0xC000]
        }
    }

    pub fn from_rom(rom: Rom) -> (r: Self)
        requires
            rom.wf(),
            rom.has_prg(),
        ensures
            r.wf(),
            r.rom == rom,
            r.current_bank == 0,
            r.banks_count == rom.prg@.len() as int / PRG_BANK_SIZE as int,
    {
        let count = rom.prg.len() / PRG_BANK_SIZE;
        let last = count - 1;
        Mapper2 { rom, banks_count: count, current_bank: 0, last_bank: last }
    }

    pub fn get_mirroring(&self) -> (r: Mirroring)
        ensures
            r == self.rom.mirroring,
    {
        self.rom.mirroring
    }

    pub fn read(&self, address: u16) -> (r: u8)
        requires
            self.wf(),
            address < 0x2000 || address >= 0x6000,
        ensures
            r == self.read_spec(address),
    {
        let a = address as usize;
        if a < 0x2000 {
            self.rom.chr[a]
        } else if a < 0x8000 {
            self.rom.ram[a - 0x6000]
        } else if a < 0xC000 {
            proof {
                assert(self.current_bank * PRG_BANK_SIZE + PRG_BANK_SIZE <= self.rom.prg@.len())
                    by (nonlinear_arith)
                    requires
                        self.current_bank < self.banks_count,
                        self.banks_count == self.rom.prg@.len() as int / PRG_BANK_SIZE as int,
                ;
            }
            self.rom.prg[self.current_bank * PRG_BANK_SIZE + a - 0x8000]
        } else {
            proof {
                assert(self.last_bank * PRG_BANK_SIZE + PRG_BANK_SIZE <= self.rom.prg@.len())
                    by (nonlinear_arith)
                    requires
                        self.last_bank < self.banks_count,
                        self.banks_count == self.rom.prg@.len() as int / PRG_BANK_SIZE as int,
                ;
            }
            self.rom.prg[self.last_bank * PRG_BANK_SIZE + a - 0xC000]
        }
    }

    /// What a write of `value` at `address` guarantees of the new state `n`.
    pub open spec fn write_post(m: Mapper2, n: Mapper2, address: u16, value: u8) -> bool {
        &&& n.wf()
        &&& n.rom.mirroring == m.rom.mirroring
        &&& n.rom.prg == m.rom.prg
        &&& n.rom.mapper == m.rom.mapper
        &&& n.banks_count == m.banks_count
        &&& n.last_bank == m.last_bank
        &&& address < 0x2000 ==> n.rom.chr@ == m.rom.chr@.update(address as int, value)
            && n.rom.ram == m.rom.ram && n.current_bank == m.current_bank
        &&& 0x6000 <= address < 0x8000 ==> n.rom.ram@ == m.rom.ram@.update(address - 0x6000, value)
            && n.rom.chr == m.rom.chr && n.current_bank == m.current_bank
        &&& address >= 0x8000 ==> n.rom.chr == m.rom.chr && n.rom.ram == m.rom.ram
            && n.current_bank == value as int % m.banks_count as int
    }

    /// CHR and PRG-RAM are written through; a write to PRG-ROM selects the low bank.
    pub fn write(&mut self, address: u16, value: u8)
        requires
            old(self).wf(),
            address < 0x2000 || address >= 0x6000,
        ensures
            Mapper2::write_post(*old(self), *final(self), address, value),
    {
        let a = address as usize;
        if a < 0x2000 {
            self.rom.chr.set(a, value);
        } else if a < 0x8000 {
            self.rom.ram.set(a - 0x6000, value);
        } else {
            self.current_bank = value as usize % self.banks_count;
        }
    }
}

} // verus!
