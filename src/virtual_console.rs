use vstd::prelude::*;
use crate::controller::Controller;
use crate::cpu::{word_at, CpuError, CpuMemory, CPU, RESET_VECTOR};
use crate::mapper::{create_mapper, MapperError};
use crate::ppu::{dots_after, wrap64, PPU};
use crate::rom::{Rom, RomError};

verus! {

/// CPU cycles per second.
pub const CPU_FREQUENCY: i64 = 1_789_773;

/// The cycle counter counts modulo this.
pub open spec fn cycle_modulus() -> int {
    0x1_0000_0000_0000_0000
}

/// `total` cycles, the last step taking `last`, reach `target` and stop
/// there: without the last step the target was not reached.
pub open spec fn ran_for(total: int, last: int, target: int) -> bool {
    &&& total >= target
    &&& target > 0 ==> 1 <= last && total - last < target
}

/// PPU dots per CPU cycle.
pub const DOTS_PER_CYCLE: usize = 3;

/// Why a console could not be built from an image.
#[derive(Debug, Clone, Copy, PartialEq, Eq, Structural)]
pub enum ConsoleError {
    Rom(RomError),
    Mapper(MapperError),
}

/// The whole machine: the CPU owns the bus, which owns the PPU, the
/// controllers and the cartridge.
#[derive(Debug)]
pub struct VirtualConsole {
    pub cpu: CPU,
}

impl VirtualConsole {
    pub open spec fn wf(&self) -> bool {
        self.cpu.wf()
    }

    /// The registers that the PPU cannot change agree between `a` and `b`.
    pub open spec fn same_registers(a: CPU, b: CPU) -> bool {
        &&& a.pc == b.pc && a.sp == b.sp && a.a == b.a && a.x == b.x && a.y == b.y
        &&& a.flags() == b.flags()
        &&& a.cycles == b.cycles && a.stall == b.stall
    }

    /// The PPU's (dot, scanline, odd-frame flag).
    pub open spec fn timeline(p: PPU) -> (int, int, int) {
        (p.cycle as int, p.scan_line as int, p.f as int)
    }

    /// Parses an iNES image and builds the machine around it.
    pub fn new(data: &[u8]) -> (r: Result<VirtualConsole, ConsoleError>)
        ensures
            match r {
                Ok(console) => console.wf() && crate::rom::load_error(data@).is_none()
                    && console.cpu.mem.fault.is_none() && console.cpu.pc == 0
                    && console.cpu.interrupt == crate::cpu::Interrupt::Idle && match console.cpu.mem.mapper {
                    crate::mapper::Mapper::Mapper1(m) => crate::rom::mapper_of(data@) == 1
                        && crate::rom::loaded_from(m.rom, data@),
                    crate::mapper::Mapper::Mapper2(m) => (crate::rom::mapper_of(data@) == 0
                        || crate::rom::mapper_of(data@) == 2) && crate::rom::loaded_from(m.rom, data@),
                },
                Err(ConsoleError::Rom(e)) => crate::rom::load_error(data@) == Some(e),
                Err(ConsoleError::Mapper(MapperError::Unsupported(n))) => crate::rom::load_error(
                    data@,
                ).is_none() && n == crate::rom::mapper_of(data@) && n != 0 && n != 1 && n != 2,
                Err(ConsoleError::Mapper(MapperError::NoPrgRom)) => crate::rom::load_error(data@).is_none()
                    && data@[4] == 0 && (crate::rom::mapper_of(data@) == 0 || crate::rom::mapper_of(
                    data@,
                ) == 1 || crate::rom::mapper_of(data@) == 2),
            },
    {
        let rom = match Rom::load(data) {
            Ok(rom) => rom,
            Err(e) => {
                return Err(ConsoleError::Rom(e));
            },
        };
        let mapper = match create_mapper(rom) {
            Ok(m) => m,
            Err(e) => {
                return Err(ConsoleError::Mapper(e));
            },
        };
        let ppu = PPU::new();
        let mem = CpuMemory::new(mapper, ppu, Controller::new(), Controller::new());
        Ok(VirtualConsole { cpu: CPU::new(mem) })
    }

    /// Resets the PPU, then the CPU.
    pub fn reset(&mut self)
        requires
            old(self).wf(),
        ensures
            final(self).wf(),
            final(self).cpu.flags() == 0x24,
            final(self).cpu == (CPU {
                pc: word_at(old(self).cpu.mem, RESET_VECTOR),
                sp: 0xFD,
                mem: CpuMemory { ppu: PPU::reset_state(old(self).cpu.mem.ppu), ..old(self).cpu.mem },
                ..CPU::with_flags(old(self).cpu, 0x24)
            }),
    {
        self.cpu.mem.ppu.reset();
        let ghost mid = self.cpu;
        assert(word_at(mid.mem, RESET_VECTOR) == word_at(old(self).cpu.mem, RESET_VECTOR));
        self.cpu.reset();
    }

    /// Advances the PPU by `dots` dots, handing each NMI it raises to the CPU.
    fn run_ppu(&mut self, dots: usize)
        requires
            old(self).wf(),
        ensures
            final(self).wf(),
            VirtualConsole::same_registers(old(self).cpu, final(self).cpu),
            final(self).cpu.mem.ram == old(self).cpu.mem.ram,
            final(self).cpu.mem.mapper == old(self).cpu.mem.mapper,
            final(self).cpu.mem.fault == old(self).cpu.mem.fault,
            VirtualConsole::timeline(final(self).cpu.mem.ppu) == dots_after(
                old(self).cpu.mem.ppu.cycle as int,
                old(self).cpu.mem.ppu.scan_line as int,
                old(self).cpu.mem.ppu.f as int,
                old(self).cpu.mem.ppu.rendering_enabled(),
                dots as nat,
            ),
    {
        let mut k: usize = 0;
        while k < dots
            invariant
                old(self).wf(),
                self.wf(),
                k <= dots,
                VirtualConsole::same_registers(old(self).cpu, self.cpu),
                self.cpu.mem.ram == old(self).cpu.mem.ram,
                self.cpu.mem.mapper == old(self).cpu.mem.mapper,
                self.cpu.mem.fault == old(self).cpu.mem.fault,
                self.cpu.mem.ppu.flag_show_background == old(self).cpu.mem.ppu.flag_show_background,
                self.cpu.mem.ppu.flag_show_sprites == old(self).cpu.mem.ppu.flag_show_sprites,
                VirtualConsole::timeline(self.cpu.mem.ppu) == dots_after(
                    old(self).cpu.mem.ppu.cycle as int,
                    old(self).cpu.mem.ppu.scan_line as int,
                    old(self).cpu.mem.ppu.f as int,
                    old(self).cpu.mem.ppu.rendering_enabled(),
                    k as nat,
                ),
            decreases dots - k,
        {
            let nmi = self.cpu.mem.ppu.tick();
            self.cpu.mem.ppu.step(&self.cpu.mem.mapper);
            if nmi {
                self.cpu.trigger_nmi();
            }
            k = k + 1;
        }
    }

    /// One CPU instruction, then three PPU dots per cycle it took.
    pub fn step(&mut self) -> (r: Result<usize, CpuError>)
        requires
            old(self).wf(),
        ensures
            final(self).wf(),
            exists|c: CPU|
                #![trigger CPU::step_post(old(self).cpu, c, r)]
                {
                    &&& CPU::step_post(old(self).cpu, c, r)
                    &&& VirtualConsole::same_registers(c, final(self).cpu)
                    &&& final(self).cpu.mem.ram == c.mem.ram
                    &&& r is Err ==> final(self).cpu == c
                    &&& r matches Ok(n) ==> VirtualConsole::timeline(final(self).cpu.mem.ppu)
                        == dots_after(
                        c.mem.ppu.cycle as int,
                        c.mem.ppu.scan_line as int,
                        c.mem.ppu.f as int,
                        c.mem.ppu.rendering_enabled(),
                        (DOTS_PER_CYCLE * n) as nat,
                    )
                },
            r matches Ok(n) ==> 1 <= n <= 18 && final(self).cpu.cycles == wrap64(
                old(self).cpu.cycles + n,
            ),
    {
        let r = self.cpu.step();
        let ghost c = self.cpu;
        match r {
            Ok(cycles) => {
                self.run_ppu(cycles * DOTS_PER_CYCLE);
            },
            Err(_) => {},
        }
        assert(CPU::step_post(old(self).cpu, c, r) && VirtualConsole::same_registers(c, self.cpu)
            && self.cpu.mem.ram == c.mem.ram);
        r
    }

    /// Runs for `milliseconds` of emulated time: steps until CPU_FREQUENCY *
    /// ms / 1000 cycles have been consumed, stopping at the first error.
    pub fn step_seconds(&mut self, milliseconds: i64) -> (r: Result<(), CpuError>)
        requires
            old(self).wf(),
            0 <= milliseconds <= i64::MAX / CPU_FREQUENCY,
        ensures
            final(self).wf(),
            CPU_FREQUENCY * milliseconds / 1000 == 0 ==> r is Ok && *final(self) == *old(self),
            r matches Err(e) ==> exists|c: CPU|
                c.wf() && #[trigger] CPU::step_post(c, final(self).cpu, Err::<usize, CpuError>(e)),
            r is Ok ==> exists|total: int, last: int|
                #[trigger] ran_for(total, last, CPU_FREQUENCY * milliseconds / 1000)
                    && final(self).cpu.cycles as int == (old(self).cpu.cycles + total)
                    % cycle_modulus(),
    {
        let target: i64 = CPU_FREQUENCY * milliseconds / 1000;
        let mut cycles: i64 = target;
        let ghost mut total: int = 0;
        let ghost mut last: int = 0;
        proof {
            vstd::arithmetic::div_mod::lemma_small_mod(self.cpu.cycles as nat, cycle_modulus() as nat);
        }
        while cycles > 0
            invariant
                self.wf(),
                cycles >= 0,
                total >= 0,
                cycles > 0 ==> cycles + total == target,
                cycles == 0 ==> total >= target,
                cycles == 0 && target > 0 ==> 1 <= last && total - last < target,
                total == 0 ==> *self == *old(self),
                target == CPU_FREQUENCY * milliseconds / 1000,
                target == 0 ==> total == 0,
                self.cpu.cycles as int == (old(self).cpu.cycles + total) % cycle_modulus(),
            decreases cycles,
        {
            let ghost before = self.cpu.cycles;
            let ghost prev = self.cpu;
            match self.step() {
                Ok(n) => {
                    proof {
                        vstd::arithmetic::div_mod::lemma_add_mod_noop(
                            old(self).cpu.cycles + total,
                            n as int,
                            cycle_modulus(),
                        );
                        vstd::arithmetic::div_mod::lemma_small_mod(n as nat, cycle_modulus() as nat);
                        vstd::arithmetic::div_mod::lemma_mod_bound(
                            before + n,
                            cycle_modulus(),
                        );
                        if before + n >= cycle_modulus() {
                            vstd::arithmetic::div_mod::lemma_fundamental_div_mod_converse(
                                before + n,
                                cycle_modulus(),
                                1,
                                before + n - cycle_modulus(),
                            );
                        } else {
                            vstd::arithmetic::div_mod::lemma_small_mod(
                                (before + n) as nat,
                                cycle_modulus() as nat,
                            );
                        }
                        last = n as int;
                        total = total + n;
                    }
                    if n as u64 >= cycles as u64 {
                        cycles = 0;
                    } else {
                        cycles = cycles - n as i64;
                    }
                },
                Err(e) => {
                    assert(prev.wf() && CPU::step_post(prev, self.cpu, Err::<usize, CpuError>(e)));
                    return Err(e);
                },
            }
        }
        proof {
            assert(ran_for(total, last, target as int));
        }
        Ok(())
    }

    /// The finished frame, RGB24 row-major.
    pub fn get_pixels(&self) -> (r: &[u8])
        requires
            self.wf(),
        ensures
            r@ == crate::frame::frame_bytes(self.cpu.mem.ppu.front()),
            r@.len() == crate::frame::FRAME_BYTES,
    {
        self.cpu.mem.ppu.get_pixels()
    }

    /// Sets the buttons that controller `port` (0 or 1) reports.
    pub fn set_controller_buttons(&mut self, port: usize, buttons: [bool; 8])
        requires
            old(self).wf(),
            port <= 1,
        ensures
            final(self).wf(),
            port == 0 ==> final(self).cpu.mem.controller_1.buttons == buttons,
            port == 1 ==> final(self).cpu.mem.controller_2.buttons == buttons,
    {
        if port == 0 {
            self.cpu.mem.controller_1.set_buttons(buttons);
        } else {
            self.cpu.mem.controller_2.set_buttons(buttons);
        }
    }
}

} // verus!
