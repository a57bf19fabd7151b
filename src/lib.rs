//! A cycle-timed emulator core for the 6502-based home console: the CPU
//! interpreter, the picture processing unit and the cartridge mappers.

mod controller;
mod cpu;
mod frame;
mod mapper;
mod ppu;
mod rom;
mod virtual_console;

pub use controller::Controller;
pub use cpu::{
    describe, is_different_pages, lemma_flags_round_trip, lemma_flags_unpack_pack, lemma_php_plp, lemma_push_pop,
    lemma_push_pop_word, lemma_ram_mirrors, lemma_read16_buggy_page_wrap, lemma_read16_ram, operation,
    AddressingMode, CpuError, CpuMemory, Info, Instruction, Interrupt, Operation, CPU,
};
pub use frame::FrameBuffer;
pub use mapper::{create_mapper, Mapper, Mapper1, Mapper2, MapperError};
pub use ppu::{mirror_address, system_color, PPU};
pub use rom::{format_header, lemma_header_round_trip, Mirroring, Rom, RomError, PRG_RAM_SIZE};
pub use virtual_console::{ConsoleError, VirtualConsole, CPU_FREQUENCY};
