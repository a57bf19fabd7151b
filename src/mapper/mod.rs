mod mapper1;
mod mapper2;

use vstd::prelude::*;

pub use self::mapper1::Mapper1;
pub use self::mapper2::Mapper2;
use crate::rom::{Mirroring, Rom};

verus! {

/// The cartridge logic between the buses and the ROM image.
#[derive(Debug)]
pub enum Mapper {
    Mapper1(Mapper1),
    Mapper2(Mapper2),
}

/// Why no mapper could be built for a ROM image.
#[derive(Debug, Clone, Copy, PartialEq, Eq, Structural)]
pub enum MapperError {
    /// The header names a mapper that this core does not implement.
    Unsupported(u8),
    /// The image holds no PRG-ROM bank.
    NoPrgRom,
}

/// An address that a cartridge answers: CHR below 0x2000, RAM and ROM from 0x6000.
pub open spec fn cartridge_address(address: u16) -> bool {
    address < 0x2000 || address >= 0x6000
}

impl Mapper {
    pub open spec fn wf(&self) -> bool {
        match self {
            Mapper::Mapper1(m) => m.wf(),
            Mapper::Mapper2(m) => m.wf(),
        }
    }

    pub open spec fn read_spec(&self, address: u16) -> u8 {
        match self {
            Mapper::Mapper1(m) => m.read_spec(address),
            Mapper::Mapper2(m) => m.read_spec(address),
        }
    }

    pub open spec fn mirroring(&self) -> Mirroring {
        match self {
            Mapper::Mapper1(m) => m.rom.mirroring,
            Mapper::Mapper2(m) => m.rom.mirroring,
        }
    }

    pub open spec fn same_kind(&self, other: &Mapper) -> bool {
        match (self, other) {
            (Mapper::Mapper1(_), Mapper::Mapper1(_)) => true,
            (Mapper::Mapper2(_), Mapper::Mapper2(_)) => true,
            _ => false,
        }
    }

    /// What a write of `value` at `address` guarantees of the new state `n`.
    pub open spec fn write_post(m: Mapper, n: Mapper, address: u16, value: u8) -> bool {
        &&& n.wf()
        &&& n.same_kind(&m)
        &&& address < 0x8000 ==> n.read_spec(address) == value
        &&& address < 0x8000 ==> n.mirroring() == m.mirroring()
        &&& 0x6000 <= address < 0x8000 ==> forall|b: u16|
            0x6000 <= b < 0x8000 && b != address ==> #[trigger] n.read_spec(b) == m.read_spec(b)
        &&& match (m, n) {
            (Mapper::Mapper1(a), Mapper::Mapper1(b)) => Mapper1::write_post(a, b, address, value),
            (Mapper::Mapper2(a), Mapper::Mapper2(b)) => Mapper2::write_post(a, b, address, value),
            _ => false,
        }
    }

    pub fn get_mirroring(&self) -> (r: Mirroring)
        ensures
            r == self.mirroring(),
    {
        match self {
            Mapper::Mapper1(m) => m.get_mirroring(),
            Mapper::Mapper2(m) => m.get_mirroring(),
        }
    }

    pub fn read(&self, address: u16) -> (r: u8)
        requires
            self.wf(),
            cartridge_address(address),
        ensures
            r == self.read_spec(address),
    {
        match self {
            Mapper::Mapper1(m) => m.read(address),
            Mapper::Mapper2(m) => m.read(address),
        }
    }

    /// Writes through to CHR or PRG-RAM below 0x8000; above, configures the banks.
    pub fn write(&mut self, address: u16, value: u8)
        requires
            old(self).wf(),
            cartridge_address(address),
        ensures
            Mapper::write_post(*old(self), *final(self), address, value),
    {
        match self {
            Mapper::Mapper1(m) => m.write(address, value),
            Mapper::Mapper2(m) => m.write(address, value),
        }
    }
}

/// Builds the mapper that the header names: 1 is the serial-shift family,
/// 0 and 2 the bank-select family.
pub fn create_mapper(rom: Rom) -> (r: Result<Mapper, MapperError>)
    requires
        rom.wf(),
    ensures
        match r {
            Ok(Mapper::Mapper1(m)) => rom.mapper == 1 && rom.has_prg() && m.rom == rom && m.wf() && m.shift == 0x10
                && m.regs() == (0u8, 0u8, 0u8, 0u8) && m.prg_offset_0 == 0 && m.prg_offset_1
                == m.prg_offset(-1) && m.chr_offset_0 == 0 && m.chr_offset_1 == 0,
            Ok(Mapper::Mapper2(m)) => (rom.mapper == 0 || rom.mapper == 2) && rom.has_prg() && m.rom == rom
                && m.wf() && m.current_bank == 0,
            Err(MapperError::Unsupported(n)) => rom.mapper != 0 && rom.mapper != 1 && rom.mapper != 2
                && n == rom.mapper,
            Err(MapperError::NoPrgRom) => (rom.mapper == 0 || rom.mapper == 1 || rom.mapper == 2)
                && !rom.has_prg(),
        },
{
    if rom.mapper != 0 && rom.mapper != 1 && rom.mapper != 2 {
        let n = rom.mapper;
        return Err(MapperError::Unsupported(n));
    }
    if rom.prg.len() == 0 {
        return Err(MapperError::NoPrgRom);
    }
    if rom.mapper == 1 {
        Ok(Mapper::Mapper1(Mapper1::from_rom(rom)))
    } else {
        Ok(Mapper::Mapper2(Mapper2::from_rom(rom)))
    }
}

} // verus!
