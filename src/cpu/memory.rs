use vstd::prelude::*;
use crate::controller::Controller;
use crate::mapper::Mapper;
use crate::ppu::PPU;

verus! {

/// Size of the internal RAM; 0x0000-0x1FFF mirrors it every RAM_SIZE bytes.
pub const RAM_SIZE: usize = 2048;

/// The CPU bus: internal RAM, the PPU registers, the controllers and the cartridge.
#[derive(Debug)]
pub struct CpuMemory {
    pub ram: Vec<u8>,
    pub mapper: Mapper,
    pub ppu: PPU,
    pub controller_1: Controller,
    pub controller_2: Controller,
    /// The first access to an address that nothing answers, if any.
    pub fault: Option<u16>,
}

/// Index into RAM of a CPU address below 0x2000.
pub open spec fn ram_index(address: int) -> int {
    address % RAM_SIZE as int
}

/// The audio and I/O registers, which this core accepts and ignores.
pub open spec fn audio_register(address: u16) -> bool {
    (0x4000 <= address <= 0x4013) || address == 0x4015 || address == 0x4017
}

/// An address that a side-effect-free load (operands, pointers, vectors) may read.
pub open spec fn loadable(address: u16) -> bool {
    address < 0x4000 || address == 0x4015 || address >= 0x6000
}

/// An address that an instruction may read.
pub open spec fn readable(address: u16) -> bool {
    address < 0x4018 || address >= 0x6000
}

/// An address that an instruction may write (0x4014 is the OAM DMA port).
pub open spec fn writable(address: u16) -> bool {
    address < 0x4018 || address >= 0x6000
}

impl CpuMemory {
    pub open spec fn wf(&self) -> bool {
        &&& self.ram@.len() == RAM_SIZE
        &&& self.mapper.wf()
        &&& self.ppu.wf()
        &&& self.controller_1.wf()
        &&& self.controller_2.wf()
    }

    /// The state with an access to `address` recorded as unanswered, unless one already is.
    pub open spec fn faulted(m: CpuMemory, address: u16) -> CpuMemory {
        if m.fault.is_some() {
            m
        } else {
            CpuMemory { fault: Some(address), ..m }
        }
    }

    /// The value that a load of `address` gives.
    pub open spec fn load_value(&self, address: u16) -> u8 {
        if address < 0x2000 {
            self.ram@[ram_index(address as int)]
        } else if address < 0x4000 {
            self.ppu.register_value(self.mapper, (0x2000 + address % 8) as u16)
        } else if address >= 0x6000 {
            self.mapper.read_spec(address)
        } else {
            0
        }
    }

    /// The state after a load of `address`.
    pub open spec fn after_load(m: CpuMemory, address: u16) -> CpuMemory {
        if loadable(address) {
            m
        } else {
            CpuMemory::faulted(m, address)
        }
    }

    /// The value that an instruction reading `address` sees.
    pub open spec fn peek(&self, address: u16) -> u8 {
        if address < 0x2000 {
            self.ram@[ram_index(address as int)]
        } else if address < 0x4000 {
            self.ppu.register_value(self.mapper, (0x2000 + address % 8) as u16)
        } else if address == 0x4016 {
            self.controller_1.next_bit()
        } else if address == 0x4017 {
            self.controller_2.next_bit()
        } else if address >= 0x6000 {
            self.mapper.read_spec(address)
        } else {
            0
        }
    }

    /// The state after an instruction reads `address`: register reads have
    /// side effects on the PPU and the controllers.
    pub open spec fn after_read(m: CpuMemory, address: u16) -> CpuMemory {
        if 0x2000 <= address < 0x4000 {
            CpuMemory {
                ppu: PPU::register_read(m.ppu, m.mapper, (0x2000 + address % 8) as u16),
                ..m
            }
        } else if address == 0x4016 {
            CpuMemory { controller_1: Controller::after_read(m.controller_1), ..m }
        } else if address == 0x4017 {
            CpuMemory { controller_2: Controller::after_read(m.controller_2), ..m }
        } else if readable(address) {
            m
        } else {
            CpuMemory::faulted(m, address)
        }
    }

    /// What a write of `value` to `address` (not the DMA port) guarantees of the new state `n`.
    pub open spec fn write_post(m: CpuMemory, n: CpuMemory, address: u16, value: u8) -> bool {
        &&& n.wf()
        &&& address < 0x2000 ==> n.ram@ == m.ram@.update(ram_index(address as int), value) && n
            == (CpuMemory { ram: n.ram, ..m })
        &&& 0x2000 <= address < 0x4000 ==> PPU::register_write_post(
            m.ppu,
            n.ppu,
            m.mapper,
            n.mapper,
            (0x2000 + address % 8) as u16,
            value,
        ) && n == (CpuMemory { ppu: n.ppu, mapper: n.mapper, ..m })
        &&& address == 0x4016 ==> n == (CpuMemory {
            controller_1: Controller::after_write(m.controller_1, value),
            controller_2: Controller::after_write(m.controller_2, value),
            ..m
        })
        &&& (audio_register(address) || address == 0x4014) ==> n == m
        &&& address >= 0x6000 ==> Mapper::write_post(m.mapper, n.mapper, address, value) && n == (
        CpuMemory { mapper: n.mapper, ..m })
        &&& !writable(address) ==> n == CpuMemory::faulted(m, address)
    }

    /// The byte that OAM DMA copies from `address`: what a load there sees.
    pub open spec fn dma_value(&self, address: int) -> u8 {
        self.load_value(address as u16)
    }

    /// What OAM DMA from page `page` guarantees of the new state `n`: OAM
    /// receives the page starting at the OAM address.
    pub open spec fn dma_post(m: CpuMemory, n: CpuMemory, page: u8) -> bool {
        &&& n.wf()
        &&& n == (CpuMemory { ppu: PPU { oam_data: n.ppu.oam_data, ..m.ppu }, ..m })
        &&& forall|k: int|
            0 <= k < 256 ==> n.ppu.oam_data@[(m.ppu.oam_address + k) % 256] == #[trigger] m.dma_value(
                page * 256 + k,
            )
    }

    pub fn new(mapper: Mapper, ppu: PPU, controller_1: Controller, controller_2: Controller) -> (r:
        CpuMemory)
        requires
            mapper.wf(),
            ppu.wf(),
            controller_1.wf(),
            controller_2.wf(),
        ensures
            r.wf(),
            r.ram@ == Seq::new(RAM_SIZE as nat, |i: int| 0u8),
            r.mapper == mapper,
            r.ppu == ppu,
            r.controller_1 == controller_1,
            r.controller_2 == controller_2,
            r.fault.is_none(),
    {
        CpuMemory {
            ram: crate::rom::zeroed(RAM_SIZE),
            mapper,
            ppu,
            controller_1,
            controller_2,
            fault: None,
        }
    }

    fn record_fault(&mut self, address: u16)
        ensures
            *final(self) == CpuMemory::faulted(*old(self), address),
    {
        if self.fault.is_none() {
            self.fault = Some(address);
        }
    }

    /// The value at `address` as a load sees it, without recording anything.
    pub fn value_at(&self, address: u16) -> (r: u8)
        requires
            self.wf(),
        ensures
            r == self.load_value(address),
    {
        if address < 0x2000 {
            self.ram[address as usize % RAM_SIZE]
        } else if address < 0x4000 {
            self.ppu.peek_register(&self.mapper, 0x2000 + address % 8)
        } else if address >= 0x6000 {
            self.mapper.read(address)
        } else {
            0
        }
    }

    /// A load without side effects, for operands, pointers and vectors.
    pub fn load(&mut self, address: u16) -> (r: u8)
        requires
            old(self).wf(),
        ensures
            final(self).wf(),
            r == old(self).load_value(address),
            *final(self) == CpuMemory::after_load(*old(self), address),
    {
        let r = self.value_at(address);
        if !(address < 0x4000 || address == 0x4015 || address >= 0x6000) {
            self.record_fault(address);
        }
        r
    }

    /// A read by an instruction, with the side effects of register reads.
    pub fn read(&mut self, address: u16) -> (r: u8)
        requires
            old(self).wf(),
        ensures
            final(self).wf(),
            r == old(self).peek(address),
            *final(self) == CpuMemory::after_read(*old(self), address),
    {
        if address < 0x2000 {
            self.ram[address as usize % RAM_SIZE]
        } else if address < 0x4000 {
            self.ppu.read_register(&self.mapper, 0x2000 + address % 8)
        } else if address == 0x4016 {
            self.controller_1.read()
        } else if address == 0x4017 {
            self.controller_2.read()
        } else if address >= 0x6000 {
            self.mapper.read(address)
        } else {
            if address >= 0x4018 {
                self.record_fault(address);
            }
            0
        }
    }

    /// A write by an instruction to anything but the DMA port.
    pub fn write(&mut self, address: u16, value: u8)
        requires
            old(self).wf(),
        ensures
            CpuMemory::write_post(*old(self), *final(self), address, value),
    {
        if address < 0x2000 {
            self.ram.set(address as usize % RAM_SIZE, value);
        } else if address < 0x4000 {
            self.ppu.write_register(&mut self.mapper, 0x2000 + address % 8, value);
        } else if address == 0x4016 {
            self.controller_1.write(value);
            self.controller_2.write(value);
        } else if address < 0x4018 {
        } else if address >= 0x6000 {
            self.mapper.write(address, value);
        } else {
            self.record_fault(address);
        }
    }

    /// OAM DMA: copies page `page` into OAM, starting at the OAM address.
    pub fn oam_dma(&mut self, page: u8)
        requires
            old(self).wf(),
        ensures
            CpuMemory::dma_post(*old(self), *final(self), page),
    {
        let base: u16 = (page as u16) * 256;
        let start = self.ppu.oam_address as usize;
        let mut bytes: Vec<u8> = Vec::with_capacity(256);
        let mut k: usize = 0;
        while k < 256
            invariant
                self.wf(),
                *self == *old(self),
                k <= 256,
                base == page * 256,
                bytes@.len() == k,
                forall|j: int| 0 <= j < k ==> bytes@[j] == #[trigger] old(self).dma_value(page * 256 + j),
            decreases 256 - k,
        {
            let value = self.value_at(base + k as u16);
            bytes.push(value);
            k = k + 1;
        }
        k = 0;
        while k < 256
            invariant
                old(self).wf(),
                self.wf(),
                k <= 256,
                start == old(self).ppu.oam_address,
                bytes@.len() == 256,
                forall|j: int| 0 <= j < 256 ==> bytes@[j] == #[trigger] old(self).dma_value(page * 256 + j),
                *self == (CpuMemory {
                    ppu: PPU { oam_data: self.ppu.oam_data, ..old(self).ppu },
                    ..*old(self)
                }),
                forall|j: int|
                    0 <= j < k ==> self.ppu.oam_data@[(start + j) % 256] == #[trigger] old(
                        self,
                    ).dma_value(page * 256 + j),
            decreases 256 - k,
        {
            let value = bytes[k];
            let ghost before = self.ppu.oam_data@;
            self.ppu.oam_data.set((start + k) % 256, value);
            proof {
                assert forall|j: int| 0 <= j < k + 1 implies self.ppu.oam_data@[(start + j) % 256]
                    == #[trigger] old(self).dma_value(page * 256 + j) by {
                    if j < k {
                        assert((start + j) % 256 != (start + k) % 256);
                        assert(before[(start + j) % 256] == old(self).dma_value(page * 256 + j));
                    }
                }
            }
            k = k + 1;
        }
    }
}

/// A write anywhere in 0x0000-0x1FFF lands on byte `address % 0x800`, so
/// all four mirrors read it back.
pub proof fn lemma_ram_mirrors(m: CpuMemory, n: CpuMemory, address: u16, value: u8, k: u16)
    requires
        m.wf(),
        CpuMemory::write_post(m, n, address, value),
        address < 0x2000,
        k < 4,
    ensures
        n.ram@[ram_index(address as int)] == value,
        n.peek((address % 0x800 + k * 0x800) as u16) == value,
{
}

} // verus!
