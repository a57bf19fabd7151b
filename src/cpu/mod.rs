mod cpu;
mod description;
mod implementation;
mod memory;

pub use self::cpu::{
    bit, buggy_word_at, bug_high, is_different_pages, lemma_flags_round_trip, lemma_flags_unpack_pack,
    lemma_push_pop, lemma_push_pop_word, lemma_read16_buggy_page_wrap, lemma_read16_ram,
    operand_address, pack_flags, word_at, CpuError, Info, Interrupt, CPU, RESET_VECTOR,
};
pub use self::description::{describe, descriptor, operation, operation_of, AddressingMode, Instruction, Operation};
pub use self::implementation::{dispatch_post, lemma_php_plp, op_post, serviced};
pub use self::memory::{lemma_ram_mirrors, ram_index, CpuMemory, RAM_SIZE};
