use vstd::prelude::*;

verus! {

/// How an instruction finds its operand.
#[derive(Debug, Clone, Copy, PartialEq, Eq, Structural)]
pub enum AddressingMode {
    Absolute,
    AbsoluteX,
    AbsoluteY,
    Accumulator,
    Immediate,
    Implied,
    IndexedIndirect,
    Indirect,
    IndirectIndexed,
    Relative,
    ZeroPage,
    ZeroPageX,
    ZeroPageY,
}

/// The operation that an opcode performs.
#[derive(Debug, Clone, Copy, PartialEq, Eq, Structural)]
pub enum Operation {
    Adc,
    And,
    Asl,
    Bcc,
    Bcs,
    Beq,
    Bit,
    Bmi,
    Bne,
    Bpl,
    Brk,
    Bvc,
    Bvs,
    Clc,
    Cld,
    Cli,
    Clv,
    Cmp,
    Cpx,
    Cpy,
    Dcp,
    Dec,
    Dex,
    Dey,
    Eor,
    Inc,
    Inx,
    Iny,
    Isc,
    Jmp,
    Jsr,
    Lax,
    Lda,
    Ldx,
    Ldy,
    Lsr,
    Nop,
    Ora,
    Pha,
    Php,
    Pla,
    Plp,
    Rla,
    Rol,
    Ror,
    Rra,
    Rti,
    Rts,
    Sax,
    Sbc,
    Sec,
    Sed,
    Sei,
    Slo,
    Sre,
    Sta,
    Stx,
    Sty,
    Tax,
    Tay,
    Tsx,
    Txa,
    Txs,
    Tya,
    Unsupported,
}

/// The static description of one opcode.
#[derive(Debug, Clone, Copy)]
pub struct Instruction {
    pub opcode: u8,
    pub name: &'static str,
    pub size: u16,
    pub cycles: usize,
    pub page_cycles: usize,
    pub addressing: AddressingMode,
}

/// Size in bytes, base cycles, page-cross penalty and addressing mode of `opcode`.
pub open spec fn descriptor(opcode: u8) -> (u16, usize, usize, AddressingMode) {
    match opcode {
        0x00 => (1, 7, 0, AddressingMode::Implied),
        0x01 => (2, 6, 0, AddressingMode::IndexedIndirect),
        0x02 => (0, 2, 0, AddressingMode::Implied),
        0x03 => (2, 8, 0, AddressingMode::IndexedIndirect),
        0x04 => (2, 3, 0, AddressingMode::ZeroPage),
        0x05 => (2, 3, 0, AddressingMode::ZeroPage),
        0x06 => (2, 5, 0, AddressingMode::ZeroPage),
        0x07 => (2, 5, 0, AddressingMode::ZeroPage),
        0x08 => (1, 3, 0, AddressingMode::Implied),
        0x09 => (2, 2, 0, AddressingMode::Immediate),
        0x0A => (1, 2, 0, AddressingMode::Accumulator),
        0x0B => (0, 2, 0, AddressingMode::Immediate),
        0x0C => (3, 4, 0, AddressingMode::Absolute),
        0x0D => (3, 4, 0, AddressingMode::Absolute),
        0x0E => (3, 6, 0, AddressingMode::Absolute),
        0x0F => (3, 6, 0, AddressingMode::Absolute),
        0x10 => (2, 2, 1, AddressingMode::Relative),
        0x11 => (2, 5, 1, AddressingMode::IndirectIndexed),
        0x12 => (0, 2, 0, AddressingMode::Implied),
        0x13 => (2, 8, 0, AddressingMode::IndirectIndexed),
        0x14 => (2, 4, 0, AddressingMode::ZeroPageX),
        0x15 => (2, 4, 0, AddressingMode::ZeroPageX),
        0x16 => (2, 6, 0, AddressingMode::ZeroPageX),
        0x17 => (2, 6, 0, AddressingMode::ZeroPageX),
        0x18 => (1, 2, 0, AddressingMode::Implied),
        0x19 => (3, 4, 1, AddressingMode::AbsoluteY),
        0x1A => (1, 2, 0, AddressingMode::Implied),
        0x1B => (3, 7, 0, AddressingMode::AbsoluteY),
        0x1C => (3, 4, 1, AddressingMode::AbsoluteX),
        0x1D => (3, 4, 1, AddressingMode::AbsoluteX),
        0x1E => (3, 7, 0, AddressingMode::AbsoluteX),
        0x1F => (3, 7, 0, AddressingMode::AbsoluteX),
        0x20 => (3, 6, 0, AddressingMode::Absolute),
        0x21 => (2, 6, 0, AddressingMode::IndexedIndirect),
        0x22 => (0, 2, 0, AddressingMode::Implied),
        0x23 => (2, 8, 0, AddressingMode::IndexedIndirect),
        0x24 => (2, 3, 0, AddressingMode::ZeroPage),
        0x25 => (2, 3, 0, AddressingMode::ZeroPage),
        0x26 => (2, 5, 0, AddressingMode::ZeroPage),
        0x27 => (2, 5, 0, AddressingMode::ZeroPage),
        0x28 => (1, 4, 0, AddressingMode::Implied),
        0x29 => (2, 2, 0, AddressingMode::Immediate),
        0x2A => (1, 2, 0, AddressingMode::Accumulator),
        0x2B => (0, 2, 0, AddressingMode::Immediate),
        0x2C => (3, 4, 0, AddressingMode::Absolute),
        0x2D => (3, 4, 0, AddressingMode::Absolute),
        0x2E => (3, 6, 0, AddressingMode::Absolute),
        0x2F => (3, 6, 0, AddressingMode::Absolute),
        0x30 => (2, 2, 1, AddressingMode::Relative),
        0x31 => (2, 5, 1, AddressingMode::IndirectIndexed),
        0x32 => (0, 2, 0, AddressingMode::Implied),
        0x33 => (2, 8, 0, AddressingMode::IndirectIndexed),
        0x34 => (2, 4, 0, AddressingMode::ZeroPageX),
        0x35 => (2, 4, 0, AddressingMode::ZeroPageX),
        0x36 => (2, 6, 0, AddressingMode::ZeroPageX),
        0x37 => (2, 6, 0, AddressingMode::ZeroPageX),
        0x38 => (1, 2, 0, AddressingMode::Implied),
        0x39 => (3, 4, 1, AddressingMode::AbsoluteY),
        0x3A => (1, 2, 0, AddressingMode::Implied),
        0x3B => (3, 7, 0, AddressingMode::AbsoluteY),
        0x3C => (3, 4, 1, AddressingMode::AbsoluteX),
        0x3D => (3, 4, 1, AddressingMode::AbsoluteX),
        0x3E => (3, 7, 0, AddressingMode::AbsoluteX),
        0x3F => (3, 7, 0, AddressingMode::AbsoluteX),
        0x40 => (1, 6, 0, AddressingMode::Implied),
        0x41 => (2, 6, 0, AddressingMode::IndexedIndirect),
        0x42 => (0, 2, 0, AddressingMode::Implied),
        0x43 => (2, 8, 0, AddressingMode::IndexedIndirect),
        0x44 => (2, 3, 0, AddressingMode::ZeroPage),
        0x45 => (2, 3, 0, AddressingMode::ZeroPage),
        0x46 => (2, 5, 0, AddressingMode::ZeroPage),
        0x47 => (2, 5, 0, AddressingMode::ZeroPage),
        0x48 => (1, 3, 0, AddressingMode::Implied),
        0x49 => (2, 2, 0, AddressingMode::Immediate),
        0x4A => (1, 2, 0, AddressingMode::Accumulator),
        0x4B => (0, 2, 0, AddressingMode::Immediate),
        0x4C => (3, 3, 0, AddressingMode::Absolute),
        0x4D => (3, 4, 0, AddressingMode::Absolute),
        0x4E => (3, 6, 0, AddressingMode::Absolute),
        0x4F => (3, 6, 0, AddressingMode::Absolute),
        0x50 => (2, 2, 1, AddressingMode::Relative),
        0x51 => (2, 5, 1, AddressingMode::IndirectIndexed),
        0x52 => (0, 2, 0, AddressingMode::Implied),
        0x53 => (2, 8, 0, AddressingMode::IndirectIndexed),
        0x54 => (2, 4, 0, AddressingMode::ZeroPageX),
        0x55 => (2, 4, 0, AddressingMode::ZeroPageX),
        0x56 => (2, 6, 0, AddressingMode::ZeroPageX),
        0x57 => (2, 6, 0, AddressingMode::ZeroPageX),
        0x58 => (1, 2, 0, AddressingMode::Implied),
        0x59 => (3, 4, 1, AddressingMode::AbsoluteY),
        0x5A => (1, 2, 0, AddressingMode::Implied),
        0x5B => (3, 7, 0, AddressingMode::AbsoluteY),
        0x5C => (3, 4, 1, AddressingMode::AbsoluteX),
        0x5D => (3, 4, 1, AddressingMode::AbsoluteX),
        0x5E => (3, 7, 0, AddressingMode::AbsoluteX),
        0x5F => (3, 7, 0, AddressingMode::AbsoluteX),
        0x60 => (1, 6, 0, AddressingMode::Implied),
        0x61 => (2, 6, 0, AddressingMode::IndexedIndirect),
        0x62 => (0, 2, 0, AddressingMode::Implied),
        0x63 => (2, 8, 0, AddressingMode::IndexedIndirect),
        0x64 => (2, 3, 0, AddressingMode::ZeroPage),
        0x65 => (2, 3, 0, AddressingMode::ZeroPage),
        0x66 => (2, 5, 0, AddressingMode::ZeroPage),
        0x67 => (2, 5, 0, AddressingMode::ZeroPage),
        0x68 => (1, 4, 0, AddressingMode::Implied),
        0x69 => (2, 2, 0, AddressingMode::Immediate),
        0x6A => (1, 2, 0, AddressingMode::Accumulator),
        0x6B => (0, 2, 0, AddressingMode::Immediate),
        0x6C => (3, 5, 0, AddressingMode::Indirect),
        0x6D => (3, 4, 0, AddressingMode::Absolute),
        0x6E => (3, 6, 0, AddressingMode::Absolute),
        0x6F => (3, 6, 0, AddressingMode::Absolute),
        0x70 => (2, 2, 1, AddressingMode::Relative),
        0x71 => (2, 5, 1, AddressingMode::IndirectIndexed),
        0x72 => (0, 2, 0, AddressingMode::Implied),
        0x73 => (2, 8, 0, AddressingMode::IndirectIndexed),
        0x74 => (2, 4, 0, AddressingMode::ZeroPageX),
        0x75 => (2, 4, 0, AddressingMode::ZeroPageX),
        0x76 => (2, 6, 0, AddressingMode::ZeroPageX),
        0x77 => (2, 6, 0, AddressingMode::ZeroPageX),
        0x78 => (1, 2, 0, AddressingMode::Implied),
        0x79 => (3, 4, 1, AddressingMode::AbsoluteY),
        0x7A => (1, 2, 0, AddressingMode::Implied),
        0x7B => (3, 7, 0, AddressingMode::AbsoluteY),
        0x7C => (3, 4, 1, AddressingMode::AbsoluteX),
        0x7D => (3, 4, 1, AddressingMode::AbsoluteX),
        0x7E => (3, 7, 0, AddressingMode::AbsoluteX),
        0x7F => (3, 7, 0, AddressingMode::AbsoluteX),
        0x80 => (2, 2, 0, AddressingMode::Immediate),
        0x81 => (2, 6, 0, AddressingMode::IndexedIndirect),
        0x82 => (0, 2, 0, AddressingMode::Immediate),
        0x83 => (2, 6, 0, AddressingMode::IndexedIndirect),
        0x84 => (2, 3, 0, AddressingMode::ZeroPage),
        0x85 => (2, 3, 0, AddressingMode::ZeroPage),
        0x86 => (2, 3, 0, AddressingMode::ZeroPage),
        0x87 => (2, 3, 0, AddressingMode::ZeroPage),
        0x88 => (1, 2, 0, AddressingMode::Implied),
        0x89 => (0, 2, 0, AddressingMode::Immediate),
        0x8A => (1, 2, 0, AddressingMode::Implied),
        0x8B => (0, 2, 0, AddressingMode::Immediate),
        0x8C => (3, 4, 0, AddressingMode::Absolute),
        0x8D => (3, 4, 0, AddressingMode::Absolute),
        0x8E => (3, 4, 0, AddressingMode::Absolute),
        0x8F => (3, 4, 0, AddressingMode::Absolute),
        0x90 => (2, 2, 1, AddressingMode::Relative),
        0x91 => (2, 6, 0, AddressingMode::IndirectIndexed),
        0x92 => (0, 2, 0, AddressingMode::Implied),
        0x93 => (0, 6, 0, AddressingMode::IndirectIndexed),
        0x94 => (2, 4, 0, AddressingMode::ZeroPageX),
        0x95 => (2, 4, 0, AddressingMode::ZeroPageX),
        0x96 => (2, 4, 0, AddressingMode::ZeroPageY),
        0x97 => (2, 4, 0, AddressingMode::ZeroPageY),
        0x98 => (1, 2, 0, AddressingMode::Implied),
        0x99 => (3, 5, 0, AddressingMode::AbsoluteY),
        0x9A => (1, 2, 0, AddressingMode::Implied),
        0x9B => (0, 5, 0, AddressingMode::AbsoluteY),
        0x9C => (0, 5, 0, AddressingMode::AbsoluteX),
        0x9D => (3, 5, 0, AddressingMode::AbsoluteX),
        0x9E => (0, 5, 0, AddressingMode::AbsoluteY),
        0x9F => (0, 5, 0, AddressingMode::AbsoluteY),
        0xA0 => (2, 2, 0, AddressingMode::Immediate),
        0xA1 => (2, 6, 0, AddressingMode::IndexedIndirect),
        0xA2 => (2, 2, 0, AddressingMode::Immediate),
        0xA3 => (2, 6, 0, AddressingMode::IndexedIndirect),
        0xA4 => (2, 3, 0, AddressingMode::ZeroPage),
        0xA5 => (2, 3, 0, AddressingMode::ZeroPage),
        0xA6 => (2, 3, 0, AddressingMode::ZeroPage),
        0xA7 => (2, 3, 0, AddressingMode::ZeroPage),
        0xA8 => (1, 2, 0, AddressingMode::Implied),
        0xA9 => (2, 2, 0, AddressingMode::Immediate),
        0xAA => (1, 2, 0, AddressingMode::Implied),
        0xAB => (0, 2, 0, AddressingMode::Immediate),
        0xAC => (3, 4, 0, AddressingMode::Absolute),
        0xAD => (3, 4, 0, AddressingMode::Absolute),
        0xAE => (3, 4, 0, AddressingMode::Absolute),
        0xAF => (3, 4, 0, AddressingMode::Absolute),
        0xB0 => (2, 2, 1, AddressingMode::Relative),
        0xB1 => (2, 5, 1, AddressingMode::IndirectIndexed),
        0xB2 => (0, 2, 0, AddressingMode::Implied),
        0xB3 => (2, 5, 1, AddressingMode::IndirectIndexed),
        0xB4 => (2, 4, 0, AddressingMode::ZeroPageX),
        0xB5 => (2, 4, 0, AddressingMode::ZeroPageX),
        0xB6 => (2, 4, 0, AddressingMode::ZeroPageY),
        0xB7 => (2, 4, 0, AddressingMode::ZeroPageY),
        0xB8 => (1, 2, 0, AddressingMode::Implied),
        0xB9 => (3, 4, 1, AddressingMode::AbsoluteY),
        0xBA => (1, 2, 0, AddressingMode::Implied),
        0xBB => (0, 4, 1, AddressingMode::AbsoluteY),
        0xBC => (3, 4, 1, AddressingMode::AbsoluteX),
        0xBD => (3, 4, 1, AddressingMode::AbsoluteX),
        0xBE => (3, 4, 1, AddressingMode::AbsoluteY),
        0xBF => (3, 4, 1, AddressingMode::AbsoluteY),
        0xC0 => (2, 2, 0, AddressingMode::Immediate),
        0xC1 => (2, 6, 0, AddressingMode::IndexedIndirect),
        0xC2 => (0, 2, 0, AddressingMode::Immediate),
        0xC3 => (2, 8, 0, AddressingMode::IndexedIndirect),
        0xC4 => (2, 3, 0, AddressingMode::ZeroPage),
        0xC5 => (2, 3, 0, AddressingMode::ZeroPage),
        0xC6 => (2, 5, 0, AddressingMode::ZeroPage),
        0xC7 => (2, 5, 0, AddressingMode::ZeroPage),
        0xC8 => (1, 2, 0, AddressingMode::Implied),
        0xC9 => (2, 2, 0, AddressingMode::Immediate),
        0xCA => (1, 2, 0, AddressingMode::Implied),
        0xCB => (0, 2, 0, AddressingMode::Immediate),
        0xCC => (3, 4, 0, AddressingMode::Absolute),
        0xCD => (3, 4, 0, AddressingMode::Absolute),
        0xCE => (3, 6, 0, AddressingMode::Absolute),
        0xCF => (3, 6, 0, AddressingMode::Absolute),
        0xD0 => (2, 2, 1, AddressingMode::Relative),
        0xD1 => (2, 5, 1, AddressingMode::IndirectIndexed),
        0xD2 => (0, 2, 0, AddressingMode::Implied),
        0xD3 => (2, 8, 0, AddressingMode::IndirectIndexed),
        0xD4 => (2, 4, 0, AddressingMode::ZeroPageX),
        0xD5 => (2, 4, 0, AddressingMode::ZeroPageX),
        0xD6 => (2, 6, 0, AddressingMode::ZeroPageX),
        0xD7 => (2, 6, 0, AddressingMode::ZeroPageX),
        0xD8 => (1, 2, 0, AddressingMode::Implied),
        0xD9 => (3, 4, 1, AddressingMode::AbsoluteY),
        0xDA => (1, 2, 0, AddressingMode::Implied),
        0xDB => (3, 7, 0, AddressingMode::AbsoluteY),
        0xDC => (3, 4, 1, AddressingMode::AbsoluteX),
        0xDD => (3, 4, 1, AddressingMode::AbsoluteX),
        0xDE => (3, 7, 0, AddressingMode::AbsoluteX),
        0xDF => (3, 7, 0, AddressingMode::AbsoluteX),
        0xE0 => (2, 2, 0, AddressingMode::Immediate),
        0xE1 => (2, 6, 0, AddressingMode::IndexedIndirect),
        0xE2 => (0, 2, 0, AddressingMode::Immediate),
        0xE3 => (2, 8, 0, AddressingMode::IndexedIndirect),
        0xE4 => (2, 3, 0, AddressingMode::ZeroPage),
        0xE5 => (2, 3, 0, AddressingMode::ZeroPage),
        0xE6 => (2, 5, 0, AddressingMode::ZeroPage),
        0xE7 => (2, 5, 0, AddressingMode::ZeroPage),
        0xE8 => (1, 2, 0, AddressingMode::Implied),
        0xE9 => (2, 2, 0, AddressingMode::Immediate),
        0xEA => (1, 2, 0, AddressingMode::Implied),
        0xEB => (2, 2, 0, AddressingMode::Immediate),
        0xEC => (3, 4, 0, AddressingMode::Absolute),
        0xED => (3, 4, 0, AddressingMode::Absolute),
        0xEE => (3, 6, 0, AddressingMode::Absolute),
        0xEF => (3, 6, 0, AddressingMode::Absolute),
        0xF0 => (2, 2, 1, AddressingMode::Relative),
        0xF1 => (2, 5, 1, AddressingMode::IndirectIndexed),
        0xF2 => (0, 2, 0, AddressingMode::Implied),
        0xF3 => (2, 8, 0, AddressingMode::IndirectIndexed),
        0xF4 => (2, 4, 0, AddressingMode::ZeroPageX),
        0xF5 => (2, 4, 0, AddressingMode::ZeroPageX),
        0xF6 => (2, 6, 0, AddressingMode::ZeroPageX),
        0xF7 => (2, 6, 0, AddressingMode::ZeroPageX),
        0xF8 => (1, 2, 0, AddressingMode::Implied),
        0xF9 => (3, 4, 1, AddressingMode::AbsoluteY),
        0xFA => (1, 2, 0, AddressingMode::Implied),
        0xFB => (3, 7, 0, AddressingMode::AbsoluteY),
        0xFC => (3, 4, 1, AddressingMode::AbsoluteX),
        0xFD => (3, 4, 1, AddressingMode::AbsoluteX),
        0xFE => (3, 7, 0, AddressingMode::AbsoluteX),
        _ => (3, 7, 0, AddressingMode::AbsoluteX),
    }
}

/// The operation of `opcode`.
pub open spec fn operation_of(opcode: u8) -> Operation {
    match opcode {
        0x00 => Operation::Brk,
        0x01 => Operation::Ora,
        0x02 => Operation::Unsupported,
        0x03 => Operation::Slo,
        0x04 => Operation::Nop,
        0x05 => Operation::Ora,
        0x06 => Operation::Asl,
        0x07 => Operation::Slo,
        0x08 => Operation::Php,
        0x09 => Operation::Ora,
        0x0A => Operation::Asl,
        0x0B => Operation::Unsupported,
        0x0C => Operation::Nop,
        0x0D => Operation::Ora,
        0x0E => Operation::Asl,
        0x0F => Operation::Slo,
        0x10 => Operation::Bpl,
        0x11 => Operation::Ora,
        0x12 => Operation::Unsupported,
        0x13 => Operation::Slo,
        0x14 => Operation::Nop,
        0x15 => Operation::Ora,
        0x16 => Operation::Asl,
        0x17 => Operation::Slo,
        0x18 => Operation::Clc,
        0x19 => Operation::Ora,
        0x1A => Operation::Nop,
        0x1B => Operation::Slo,
        0x1C => Operation::Nop,
        0x1D => Operation::Ora,
        0x1E => Operation::Asl,
        0x1F => Operation::Slo,
        0x20 => Operation::Jsr,
        0x21 => Operation::And,
        0x22 => Operation::Unsupported,
        0x23 => Operation::Rla,
        0x24 => Operation::Bit,
        0x25 => Operation::And,
        0x26 => Operation::Rol,
        0x27 => Operation::Rla,
        0x28 => Operation::Plp,
        0x29 => Operation::And,
        0x2A => Operation::Rol,
        0x2B => Operation::Unsupported,
        0x2C => Operation::Bit,
        0x2D => Operation::And,
        0x2E => Operation::Rol,
        0x2F => Operation::Rla,
        0x30 => Operation::Bmi,
        0x31 => Operation::And,
        0x32 => Operation::Unsupported,
        0x33 => Operation::Rla,
        0x34 => Operation::Nop,
        0x35 => Operation::And,
        0x36 => Operation::Rol,
        0x37 => Operation::Rla,
        0x38 => Operation::Sec,
        0x39 => Operation::And,
        0x3A => Operation::Nop,
        0x3B => Operation::Rla,
        0x3C => Operation::Nop,
        0x3D => Operation::And,
        0x3E => Operation::Rol,
        0x3F => Operation::Rla,
        0x40 => Operation::Rti,
        0x41 => Operation::Eor,
        0x42 => Operation::Unsupported,
        0x43 => Operation::Sre,
        0x44 => Operation::Nop,
        0x45 => Operation::Eor,
        0x46 => Operation::Lsr,
        0x47 => Operation::Sre,
        0x48 => Operation::Pha,
        0x49 => Operation::Eor,
        0x4A => Operation::Lsr,
        0x4B => Operation::Unsupported,
        0x4C => Operation::Jmp,
        0x4D => Operation::Eor,
        0x4E => Operation::Lsr,
        0x4F => Operation::Sre,
        0x50 => Operation::Bvc,
        0x51 => Operation::Eor,
        0x52 => Operation::Unsupported,
        0x53 => Operation::Sre,
        0x54 => Operation::Nop,
        0x55 => Operation::Eor,
        0x56 => Operation::Lsr,
        0x57 => Operation::Sre,
        0x58 => Operation::Cli,
        0x59 => Operation::Eor,
        0x5A => Operation::Nop,
        0x5B => Operation::Sre,
        0x5C => Operation::Nop,
        0x5D => Operation::Eor,
        0x5E => Operation::Lsr,
        0x5F => Operation::Sre,
        0x60 => Operation::Rts,
        0x61 => Operation::Adc,
        0x62 => Operation::Unsupported,
        0x63 => Operation::Rra,
        0x64 => Operation::Nop,
        0x65 => Operation::Adc,
        0x66 => Operation::Ror,
        0x67 => Operation::Rra,
        0x68 => Operation::Pla,
        0x69 => Operation::Adc,
        0x6A => Operation::Ror,
        0x6B => Operation::Unsupported,
        0x6C => Operation::Jmp,
        0x6D => Operation::Adc,
        0x6E => Operation::Ror,
        0x6F => Operation::Rra,
        0x70 => Operation::Bvs,
        0x71 => Operation::Adc,
        0x72 => Operation::Unsupported,
        0x73 => Operation::Rra,
        0x74 => Operation::Nop,
        0x75 => Operation::Adc,
        0x76 => Operation::Ror,
        0x77 => Operation::Rra,
        0x78 => Operation::Sei,
        0x79 => Operation::Adc,
        0x7A => Operation::Nop,
        0x7B => Operation::Rra,
        0x7C => Operation::Nop,
        0x7D => Operation::Adc,
        0x7E => Operation::Ror,
        0x7F => Operation::Rra,
        0x80 => Operation::Nop,
        0x81 => Operation::Sta,
        0x82 => Operation::Nop,
        0x83 => Operation::Sax,
        0x84 => Operation::Sty,
        0x85 => Operation::Sta,
        0x86 => Operation::Stx,
        0x87 => Operation::Sax,
        0x88 => Operation::Dey,
        0x89 => Operation::Unsupported,
        0x8A => Operation::Txa,
        0x8B => Operation::Unsupported,
        0x8C => Operation::Sty,
        0x8D => Operation::Sta,
        0x8E => Operation::Stx,
        0x8F => Operation::Sax,
        0x90 => Operation::Bcc,
        0x91 => Operation::Sta,
        0x92 => Operation::Unsupported,
        0x93 => Operation::Unsupported,
        0x94 => Operation::Sty,
        0x95 => Operation::Sta,
        0x96 => Operation::Stx,
        0x97 => Operation::Sax,
        0x98 => Operation::Tya,
        0x99 => Operation::Sta,
        0x9A => Operation::Txs,
        0x9B => Operation::Unsupported,
        0x9C => Operation::Unsupported,
        0x9D => Operation::Sta,
        0x9E => Operation::Unsupported,
        0x9F => Operation::Unsupported,
        0xA0 => Operation::Ldy,
        0xA1 => Operation::Lda,
        0xA2 => Operation::Ldx,
        0xA3 => Operation::Lax,
        0xA4 => Operation::Ldy,
        0xA5 => Operation::Lda,
        0xA6 => Operation::Ldx,
        0xA7 => Operation::Lax,
        0xA8 => Operation::Tay,
        0xA9 => Operation::Lda,
        0xAA => Operation::Tax,
        0xAB => Operation::Unsupported,
        0xAC => Operation::Ldy,
        0xAD => Operation::Lda,
        0xAE => Operation::Ldx,
        0xAF => Operation::Lax,
        0xB0 => Operation::Bcs,
        0xB1 => Operation::Lda,
        0xB2 => Operation::Unsupported,
        0xB3 => Operation::Lax,
        0xB4 => Operation::Ldy,
        0xB5 => Operation::Lda,
        0xB6 => Operation::Ldx,
        0xB7 => Operation::Lax,
        0xB8 => Operation::Clv,
        0xB9 => Operation::Lda,
        0xBA => Operation::Tsx,
        0xBB => Operation::Unsupported,
        0xBC => Operation::Ldy,
        0xBD => Operation::Lda,
        0xBE => Operation::Ldx,
        0xBF => Operation::Lax,
        0xC0 => Operation::Cpy,
        0xC1 => Operation::Cmp,
        0xC2 => Operation::Unsupported,
        0xC3 => Operation::Dcp,
        0xC4 => Operation::Cpy,
        0xC5 => Operation::Cmp,
        0xC6 => Operation::Dec,
        0xC7 => Operation::Dcp,
        0xC8 => Operation::Iny,
        0xC9 => Operation::Cmp,
        0xCA => Operation::Dex,
        0xCB => Operation::Unsupported,
        0xCC => Operation::Cpy,
        0xCD => Operation::Cmp,
        0xCE => Operation::Dec,
        0xCF => Operation::Dcp,
        0xD0 => Operation::Bne,
        0xD1 => Operation::Cmp,
        0xD2 => Operation::Unsupported,
        0xD3 => Operation::Dcp,
        0xD4 => Operation::Nop,
        0xD5 => Operation::Cmp,
        0xD6 => Operation::Dec,
        0xD7 => Operation::Dcp,
        0xD8 => Operation::Cld,
        0xD9 => Operation::Cmp,
        0xDA => Operation::Nop,
        0xDB => Operation::Dcp,
        0xDC => Operation::Nop,
        0xDD => Operation::Cmp,
        0xDE => Operation::Dec,
        0xDF => Operation::Dcp,
        0xE0 => Operation::Cpx,
        0xE1 => Operation::Sbc,
        0xE2 => Operation::Unsupported,
        0xE3 => Operation::Isc,
        0xE4 => Operation::Cpx,
        0xE5 => Operation::Sbc,
        0xE6 => Operation::Inc,
        0xE7 => Operation::Isc,
        0xE8 => Operation::Inx,
        0xE9 => Operation::Sbc,
        0xEA => Operation::Nop,
        0xEB => Operation::Sbc,
        0xEC => Operation::Cpx,
        0xED => Operation::Sbc,
        0xEE => Operation::Inc,
        0xEF => Operation::Isc,
        0xF0 => Operation::Beq,
        0xF1 => Operation::Sbc,
        0xF2 => Operation::Unsupported,
        0xF3 => Operation::Isc,
        0xF4 => Operation::Nop,
        0xF5 => Operation::Sbc,
        0xF6 => Operation::Inc,
        0xF7 => Operation::Isc,
        0xF8 => Operation::Sed,
        0xF9 => Operation::Sbc,
        0xFA => Operation::Nop,
        0xFB => Operation::Isc,
        0xFC => Operation::Nop,
        0xFD => Operation::Sbc,
        0xFE => Operation::Inc,
        _ => Operation::Isc,
    }
}

/// The description of `opcode`.
pub fn describe(opcode: u8) -> (r: Instruction)
    ensures
        r.opcode == opcode,
        (r.size, r.cycles, r.page_cycles, r.addressing) == descriptor(opcode),
        r.size <= 3 && 2 <= r.cycles <= 8 && r.page_cycles <= 1,
{
    match opcode {
        0x00 => Instruction { opcode, name: "BRK", size: 1, cycles: 7, page_cycles: 0, addressing: AddressingMode::Implied },
        0x01 => Instruction { opcode, name: "ORA", size: 2, cycles: 6, page_cycles: 0, addressing: AddressingMode::IndexedIndirect },
        0x02 => Instruction { opcode, name: "KIL", size: 0, cycles: 2, page_cycles: 0, addressing: AddressingMode::Implied },
        0x03 => Instruction { opcode, name: "SLO", size: 2, cycles: 8, page_cycles: 0, addressing: AddressingMode::IndexedIndirect },
        0x04 => Instruction { opcode, name: "NOP", size: 2, cycles: 3, page_cycles: 0, addressing: AddressingMode::ZeroPage },
        0x05 => Instruction { opcode, name: "ORA", size: 2, cycles: 3, page_cycles: 0, addressing: AddressingMode::ZeroPage },
        0x06 => Instruction { opcode, name: "ASL", size: 2, cycles: 5, page_cycles: 0, addressing: AddressingMode::ZeroPage },
        0x07 => Instruction { opcode, name: "SLO", size: 2, cycles: 5, page_cycles: 0, addressing: AddressingMode::ZeroPage },
        0x08 => Instruction { opcode, name: "PHP", size: 1, cycles: 3, page_cycles: 0, addressing: AddressingMode::Implied },
        0x09 => Instruction { opcode, name: "ORA", size: 2, cycles: 2, page_cycles: 0, addressing: AddressingMode::Immediate },
        0x0A => Instruction { opcode, name: "ASL", size: 1, cycles: 2, page_cycles: 0, addressing: AddressingMode::Accumulator },
        0x0B => Instruction { opcode, name: "ANC", size: 0, cycles: 2, page_cycles: 0, addressing: AddressingMode::Immediate },
        0x0C => Instruction { opcode, name: "NOP", size: 3, cycles: 4, page_cycles: 0, addressing: AddressingMode::Absolute },
        0x0D => Instruction { opcode, name: "ORA", size: 3, cycles: 4, page_cycles: 0, addressing: AddressingMode::Absolute },
        0x0E => Instruction { opcode, name: "ASL", size: 3, cycles: 6, page_cycles: 0, addressing: AddressingMode::Absolute },
        0x0F => Instruction { opcode, name: "SLO", size: 3, cycles: 6, page_cycles: 0, addressing: AddressingMode::Absolute },
        0x10 => Instruction { opcode, name: "BPL", size: 2, cycles: 2, page_cycles: 1, addressing: AddressingMode::Relative },
        0x11 => Instruction { opcode, name: "ORA", size: 2, cycles: 5, page_cycles: 1, addressing: AddressingMode::IndirectIndexed },
        0x12 => Instruction { opcode, name: "KIL", size: 0, cycles: 2, page_cycles: 0, addressing: AddressingMode::Implied },
        0x13 => Instruction { opcode, name: "SLO", size: 2, cycles: 8, page_cycles: 0, addressing: AddressingMode::IndirectIndexed },
        0x14 => Instruction { opcode, name: "NOP", size: 2, cycles: 4, page_cycles: 0, addressing: AddressingMode::ZeroPageX },
        0x15 => Instruction { opcode, name: "ORA", size: 2, cycles: 4, page_cycles: 0, addressing: AddressingMode::ZeroPageX },
        0x16 => Instruction { opcode, name: "ASL", size: 2, cycles: 6, page_cycles: 0, addressing: AddressingMode::ZeroPageX },
        0x17 => Instruction { opcode, name: "SLO", size: 2, cycles: 6, page_cycles: 0, addressing: AddressingMode::ZeroPageX },
        0x18 => Instruction { opcode, name: "CLC", size: 1, cycles: 2, page_cycles: 0, addressing: AddressingMode::Implied },
        0x19 => Instruction { opcode, name: "ORA", size: 3, cycles: 4, page_cycles: 1, addressing: AddressingMode::AbsoluteY },
        0x1A => Instruction { opcode, name: "NOP", size: 1, cycles: 2, page_cycles: 0, addressing: AddressingMode::Implied },
        0x1B => Instruction { opcode, name: "SLO", size: 3, cycles: 7, page_cycles: 0, addressing: AddressingMode::AbsoluteY },
        0x1C => Instruction { opcode, name: "NOP", size: 3, cycles: 4, page_cycles: 1, addressing: AddressingMode::AbsoluteX },
        0x1D => Instruction { opcode, name: "ORA", size: 3, cycles: 4, page_cycles: 1, addressing: AddressingMode::AbsoluteX },
        0x1E => Instruction { opcode, name: "ASL", size: 3, cycles: 7, page_cycles: 0, addressing: AddressingMode::AbsoluteX },
        0x1F => Instruction { opcode, name: "SLO", size: 3, cycles: 7, page_cycles: 0, addressing: AddressingMode::AbsoluteX },
        0x20 => Instruction { opcode, name: "JSR", size: 3, cycles: 6, page_cycles: 0, addressing: AddressingMode::Absolute },
        0x21 => Instruction { opcode, name: "AND", size: 2, cycles: 6, page_cycles: 0, addressing: AddressingMode::IndexedIndirect },
        0x22 => Instruction { opcode, name: "KIL", size: 0, cycles: 2, page_cycles: 0, addressing: AddressingMode::Implied },
        0x23 => Instruction { opcode, name: "RLA", size: 2, cycles: 8, page_cycles: 0, addressing: AddressingMode::IndexedIndirect },
        0x24 => Instruction { opcode, name: "BIT", size: 2, cycles: 3, page_cycles: 0, addressing: AddressingMode::ZeroPage },
        0x25 => Instruction { opcode, name: "AND", size: 2, cycles: 3, page_cycles: 0, addressing: AddressingMode::ZeroPage },
        0x26 => Instruction { opcode, name: "ROL", size: 2, cycles: 5, page_cycles: 0, addressing: AddressingMode::ZeroPage },
        0x27 => Instruction { opcode, name: "RLA", size: 2, cycles: 5, page_cycles: 0, addressing: AddressingMode::ZeroPage },
        0x28 => Instruction { opcode, name: "PLP", size: 1, cycles: 4, page_cycles: 0, addressing: AddressingMode::Implied },
        0x29 => Instruction { opcode, name: "AND", size: 2, cycles: 2, page_cycles: 0, addressing: AddressingMode::Immediate },
        0x2A => Instruction { opcode, name: "ROL", size: 1, cycles: 2, page_cycles: 0, addressing: AddressingMode::Accumulator },
        0x2B => Instruction { opcode, name: "ANC", size: 0, cycles: 2, page_cycles: 0, addressing: AddressingMode::Immediate },
        0x2C => Instruction { opcode, name: "BIT", size: 3, cycles: 4, page_cycles: 0, addressing: AddressingMode::Absolute },
        0x2D => Instruction { opcode, name: "AND", size: 3, cycles: 4, page_cycles: 0, addressing: AddressingMode::Absolute },
        0x2E => Instruction { opcode, name: "ROL", size: 3, cycles: 6, page_cycles: 0, addressing: AddressingMode::Absolute },
        0x2F => Instruction { opcode, name: "RLA", size: 3, cycles: 6, page_cycles: 0, addressing: AddressingMode::Absolute },
        0x30 => Instruction { opcode, name: "BMI", size: 2, cycles: 2, page_cycles: 1, addressing: AddressingMode::Relative },
        0x31 => Instruction { opcode, name: "AND", size: 2, cycles: 5, page_cycles: 1, addressing: AddressingMode::IndirectIndexed },
        0x32 => Instruction { opcode, name: "KIL", size: 0, cycles: 2, page_cycles: 0, addressing: AddressingMode::Implied },
        0x33 => Instruction { opcode, name: "RLA", size: 2, cycles: 8, page_cycles: 0, addressing: AddressingMode::IndirectIndexed },
        0x34 => Instruction { opcode, name: "NOP", size: 2, cycles: 4, page_cycles: 0, addressing: AddressingMode::ZeroPageX },
        0x35 => Instruction { opcode, name: "AND", size: 2, cycles: 4, page_cycles: 0, addressing: AddressingMode::ZeroPageX },
        0x36 => Instruction { opcode, name: "ROL", size: 2, cycles: 6, page_cycles: 0, addressing: AddressingMode::ZeroPageX },
        0x37 => Instruction { opcode, name: "RLA", size: 2, cycles: 6, page_cycles: 0, addressing: AddressingMode::ZeroPageX },
        0x38 => Instruction { opcode, name: "SEC", size: 1, cycles: 2, page_cycles: 0, addressing: AddressingMode::Implied },
        0x39 => Instruction { opcode, name: "AND", size: 3, cycles: 4, page_cycles: 1, addressing: AddressingMode::AbsoluteY },
        0x3A => Instruction { opcode, name: "NOP", size: 1, cycles: 2, page_cycles: 0, addressing: AddressingMode::Implied },
        0x3B => Instruction { opcode, name: "RLA", size: 3, cycles: 7, page_cycles: 0, addressing: AddressingMode::AbsoluteY },
        0x3C => Instruction { opcode, name: "NOP", size: 3, cycles: 4, page_cycles: 1, addressing: AddressingMode::AbsoluteX },
        0x3D => Instruction { opcode, name: "AND", size: 3, cycles: 4, page_cycles: 1, addressing: AddressingMode::AbsoluteX },
        0x3E => Instruction { opcode, name: "ROL", size: 3, cycles: 7, page_cycles: 0, addressing: AddressingMode::AbsoluteX },
        0x3F => Instruction { opcode, name: "RLA", size: 3, cycles: 7, page_cycles: 0, addressing: AddressingMode::AbsoluteX },
        0x40 => Instruction { opcode, name: "RTI", size: 1, cycles: 6, page_cycles: 0, addressing: AddressingMode::Implied },
        0x41 => Instruction { opcode, name: "EOR", size: 2, cycles: 6, page_cycles: 0, addressing: AddressingMode::IndexedIndirect },
        0x42 => Instruction { opcode, name: "KIL", size: 0, cycles: 2, page_cycles: 0, addressing: AddressingMode::Implied },
        0x43 => Instruction { opcode, name: "SRE", size: 2, cycles: 8, page_cycles: 0, addressing: AddressingMode::IndexedIndirect },
        0x44 => Instruction { opcode, name: "NOP", size: 2, cycles: 3, page_cycles: 0, addressing: AddressingMode::ZeroPage },
        0x45 => Instruction { opcode, name: "EOR", size: 2, cycles: 3, page_cycles: 0, addressing: AddressingMode::ZeroPage },
        0x46 => Instruction { opcode, name: "LSR", size: 2, cycles: 5, page_cycles: 0, addressing: AddressingMode::ZeroPage },
        0x47 => Instruction { opcode, name: "SRE", size: 2, cycles: 5, page_cycles: 0, addressing: AddressingMode::ZeroPage },
        0x48 => Instruction { opcode, name: "PHA", size: 1, cycles: 3, page_cycles: 0, addressing: AddressingMode::Implied },
        0x49 => Instruction { opcode, name: "EOR", size: 2, cycles: 2, page_cycles: 0, addressing: AddressingMode::Immediate },
        0x4A => Instruction { opcode, name: "LSR", size: 1, cycles: 2, page_cycles: 0, addressing: AddressingMode::Accumulator },
        0x4B => Instruction { opcode, name: "ALR", size: 0, cycles: 2, page_cycles: 0, addressing: AddressingMode::Immediate },
        0x4C => Instruction { opcode, name: "JMP", size: 3, cycles: 3, page_cycles: 0, addressing: AddressingMode::Absolute },
        0x4D => Instruction { opcode, name: "EOR", size: 3, cycles: 4, page_cycles: 0, addressing: AddressingMode::Absolute },
        0x4E => Instruction { opcode, name: "LSR", size: 3, cycles: 6, page_cycles: 0, addressing: AddressingMode::Absolute },
        0x4F => Instruction { opcode, name: "SRE", size: 3, cycles: 6, page_cycles: 0, addressing: AddressingMode::Absolute },
        0x50 => Instruction { opcode, name: "BVC", size: 2, cycles: 2, page_cycles: 1, addressing: AddressingMode::Relative },
        0x51 => Instruction { opcode, name: "EOR", size: 2, cycles: 5, page_cycles: 1, addressing: AddressingMode::IndirectIndexed },
        0x52 => Instruction { opcode, name: "KIL", size: 0, cycles: 2, page_cycles: 0, addressing: AddressingMode::Implied },
        0x53 => Instruction { opcode, name: "SRE", size: 2, cycles: 8, page_cycles: 0, addressing: AddressingMode::IndirectIndexed },
        0x54 => Instruction { opcode, name: "NOP", size: 2, cycles: 4, page_cycles: 0, addressing: AddressingMode::ZeroPageX },
        0x55 => Instruction { opcode, name: "EOR", size: 2, cycles: 4, page_cycles: 0, addressing: AddressingMode::ZeroPageX },
        0x56 => Instruction { opcode, name: "LSR", size: 2, cycles: 6, page_cycles: 0, addressing: AddressingMode::ZeroPageX },
        0x57 => Instruction { opcode, name: "SRE", size: 2, cycles: 6, page_cycles: 0, addressing: AddressingMode::ZeroPageX },
        0x58 => Instruction { opcode, name: "CLI", size: 1, cycles: 2, page_cycles: 0, addressing: AddressingMode::Implied },
        0x59 => Instruction { opcode, name: "EOR", size: 3, cycles: 4, page_cycles: 1, addressing: AddressingMode::AbsoluteY },
        0x5A => Instruction { opcode, name: "NOP", size: 1, cycles: 2, page_cycles: 0, addressing: AddressingMode::Implied },
        0x5B => Instruction { opcode, name: "SRE", size: 3, cycles: 7, page_cycles: 0, addressing: AddressingMode::AbsoluteY },
        0x5C => Instruction { opcode, name: "NOP", size: 3, cycles: 4, page_cycles: 1, addressing: AddressingMode::AbsoluteX },
        0x5D => Instruction { opcode, name: "EOR", size: 3, cycles: 4, page_cycles: 1, addressing: AddressingMode::AbsoluteX },
        0x5E => Instruction { opcode, name: "LSR", size: 3, cycles: 7, page_cycles: 0, addressing: AddressingMode::AbsoluteX },
        0x5F => Instruction { opcode, name: "SRE", size: 3, cycles: 7, page_cycles: 0, addressing: AddressingMode::AbsoluteX },
        0x60 => Instruction { opcode, name: "RTS", size: 1, cycles: 6, page_cycles: 0, addressing: AddressingMode::Implied },
        0x61 => Instruction { opcode, name: "ADC", size: 2, cycles: 6, page_cycles: 0, addressing: AddressingMode::IndexedIndirect },
        0x62 => Instruction { opcode, name: "KIL", size: 0, cycles: 2, page_cycles: 0, addressing: AddressingMode::Implied },
        0x63 => Instruction { opcode, name: "RRA", size: 2, cycles: 8, page_cycles: 0, addressing: AddressingMode::IndexedIndirect },
        0x64 => Instruction { opcode, name: "NOP", size: 2, cycles: 3, page_cycles: 0, addressing: AddressingMode::ZeroPage },
        0x65 => Instruction { opcode, name: "ADC", size: 2, cycles: 3, page_cycles: 0, addressing: AddressingMode::ZeroPage },
        0x66 => Instruction { opcode, name: "ROR", size: 2, cycles: 5, page_cycles: 0, addressing: AddressingMode::ZeroPage },
        0x67 => Instruction { opcode, name: "RRA", size: 2, cycles: 5, page_cycles: 0, addressing: AddressingMode::ZeroPage },
        0x68 => Instruction { opcode, name: "PLA", size: 1, cycles: 4, page_cycles: 0, addressing: AddressingMode::Implied },
        0x69 => Instruction { opcode, name: "ADC", size: 2, cycles: 2, page_cycles: 0, addressing: AddressingMode::Immediate },
        0x6A => Instruction { opcode, name: "ROR", size: 1, cycles: 2, page_cycles: 0, addressing: AddressingMode::Accumulator },
        0x6B => Instruction { opcode, name: "ARR", size: 0, cycles: 2, page_cycles: 0, addressing: AddressingMode::Immediate },
        0x6C => Instruction { opcode, name: "JMP", size: 3, cycles: 5, page_cycles: 0, addressing: AddressingMode::Indirect },
        0x6D => Instruction { opcode, name: "ADC", size: 3, cycles: 4, page_cycles: 0, addressing: AddressingMode::Absolute },
        0x6E => Instruction { opcode, name: "ROR", size: 3, cycles: 6, page_cycles: 0, addressing: AddressingMode::Absolute },
        0x6F => Instruction { opcode, name: "RRA", size: 3, cycles: 6, page_cycles: 0, addressing: AddressingMode::Absolute },
        0x70 => Instruction { opcode, name: "BVS", size: 2, cycles: 2, page_cycles: 1, addressing: AddressingMode::Relative },
        0x71 => Instruction { opcode, name: "ADC", size: 2, cycles: 5, page_cycles: 1, addressing: AddressingMode::IndirectIndexed },
        0x72 => Instruction { opcode, name: "KIL", size: 0, cycles: 2, page_cycles: 0, addressing: AddressingMode::Implied },
        0x73 => Instruction { opcode, name: "RRA", size: 2, cycles: 8, page_cycles: 0, addressing: AddressingMode::IndirectIndexed },
        0x74 => Instruction { opcode, name: "NOP", size: 2, cycles: 4, page_cycles: 0, addressing: AddressingMode::ZeroPageX },
        0x75 => Instruction { opcode, name: "ADC", size: 2, cycles: 4, page_cycles: 0, addressing: AddressingMode::ZeroPageX },
        0x76 => Instruction { opcode, name: "ROR", size: 2, cycles: 6, page_cycles: 0, addressing: AddressingMode::ZeroPageX },
        0x77 => Instruction { opcode, name: "RRA", size: 2, cycles: 6, page_cycles: 0, addressing: AddressingMode::ZeroPageX },
        0x78 => Instruction { opcode, name: "SEI", size: 1, cycles: 2, page_cycles: 0, addressing: AddressingMode::Implied },
        0x79 => Instruction { opcode, name: "ADC", size: 3, cycles: 4, page_cycles: 1, addressing: AddressingMode::AbsoluteY },
        0x7A => Instruction { opcode, name: "NOP", size: 1, cycles: 2, page_cycles: 0, addressing: AddressingMode::Implied },
        0x7B => Instruction { opcode, name: "RRA", size: 3, cycles: 7, page_cycles: 0, addressing: AddressingMode::AbsoluteY },
        0x7C => Instruction { opcode, name: "NOP", size: 3, cycles: 4, page_cycles: 1, addressing: AddressingMode::AbsoluteX },
        0x7D => Instruction { opcode, name: "ADC", size: 3, cycles: 4, page_cycles: 1, addressing: AddressingMode::AbsoluteX },
        0x7E => Instruction { opcode, name: "ROR", size: 3, cycles: 7, page_cycles: 0, addressing: AddressingMode::AbsoluteX },
        0x7F => Instruction { opcode, name: "RRA", size: 3, cycles: 7, page_cycles: 0, addressing: AddressingMode::AbsoluteX },
        0x80 => Instruction { opcode, name: "NOP", size: 2, cycles: 2, page_cycles: 0, addressing: AddressingMode::Immediate },
        0x81 => Instruction { opcode, name: "STA", size: 2, cycles: 6, page_cycles: 0, addressing: AddressingMode::IndexedIndirect },
        0x82 => Instruction { opcode, name: "NOP", size: 0, cycles: 2, page_cycles: 0, addressing: AddressingMode::Immediate },
        0x83 => Instruction { opcode, name: "SAX", size: 2, cycles: 6, page_cycles: 0, addressing: AddressingMode::IndexedIndirect },
        0x84 => Instruction { opcode, name: "STY", size: 2, cycles: 3, page_cycles: 0, addressing: AddressingMode::ZeroPage },
        0x85 => Instruction { opcode, name: "STA", size: 2, cycles: 3, page_cycles: 0, addressing: AddressingMode::ZeroPage },
        0x86 => Instruction { opcode, name: "STX", size: 2, cycles: 3, page_cycles: 0, addressing: AddressingMode::ZeroPage },
        0x87 => Instruction { opcode, name: "SAX", size: 2, cycles: 3, page_cycles: 0, addressing: AddressingMode::ZeroPage },
        0x88 => Instruction { opcode, name: "DEY", size: 1, cycles: 2, page_cycles: 0, addressing: AddressingMode::Implied },
        0x89 => Instruction { opcode, name: "NOP", size: 0, cycles: 2, page_cycles: 0, addressing: AddressingMode::Immediate },
        0x8A => Instruction { opcode, name: "TXA", size: 1, cycles: 2, page_cycles: 0, addressing: AddressingMode::Implied },
        0x8B => Instruction { opcode, name: "XAA", size: 0, cycles: 2, page_cycles: 0, addressing: AddressingMode::Immediate },
        0x8C => Instruction { opcode, name: "STY", size: 3, cycles: 4, page_cycles: 0, addressing: AddressingMode::Absolute },
        0x8D => Instruction { opcode, name: "STA", size: 3, cycles: 4, page_cycles: 0, addressing: AddressingMode::Absolute },
        0x8E => Instruction { opcode, name: "STX", size: 3, cycles: 4, page_cycles: 0, addressing: AddressingMode::Absolute },
        0x8F => Instruction { opcode, name: "SAX", size: 3, cycles: 4, page_cycles: 0, addressing: AddressingMode::Absolute },
        0x90 => Instruction { opcode, name: "BCC", size: 2, cycles: 2, page_cycles: 1, addressing: AddressingMode::Relative },
        0x91 => Instruction { opcode, name: "STA", size: 2, cycles: 6, page_cycles: 0, addressing: AddressingMode::IndirectIndexed },
        0x92 => Instruction { opcode, name: "KIL", size: 0, cycles: 2, page_cycles: 0, addressing: AddressingMode::Implied },
        0x93 => Instruction { opcode, name: "AHX", size: 0, cycles: 6, page_cycles: 0, addressing: AddressingMode::IndirectIndexed },
        0x94 => Instruction { opcode, name: "STY", size: 2, cycles: 4, page_cycles: 0, addressing: AddressingMode::ZeroPageX },
        0x95 => Instruction { opcode, name: "STA", size: 2, cycles: 4, page_cycles: 0, addressing: AddressingMode::ZeroPageX },
        0x96 => Instruction { opcode, name: "STX", size: 2, cycles: 4, page_cycles: 0, addressing: AddressingMode::ZeroPageY },
        0x97 => Instruction { opcode, name: "SAX", size: 2, cycles: 4, page_cycles: 0, addressing: AddressingMode::ZeroPageY },
        0x98 => Instruction { opcode, name: "TYA", size: 1, cycles: 2, page_cycles: 0, addressing: AddressingMode::Implied },
        0x99 => Instruction { opcode, name: "STA", size: 3, cycles: 5, page_cycles: 0, addressing: AddressingMode::AbsoluteY },
        0x9A => Instruction { opcode, name: "TXS", size: 1, cycles: 2, page_cycles: 0, addressing: AddressingMode::Implied },
        0x9B => Instruction { opcode, name: "TAS", size: 0, cycles: 5, page_cycles: 0, addressing: AddressingMode::AbsoluteY },
        0x9C => Instruction { opcode, name: "SHY", size: 0, cycles: 5, page_cycles: 0, addressing: AddressingMode::AbsoluteX },
        0x9D => Instruction { opcode, name: "STA", size: 3, cycles: 5, page_cycles: 0, addressing: AddressingMode::AbsoluteX },
        0x9E => Instruction { opcode, name: "SHX", size: 0, cycles: 5, page_cycles: 0, addressing: AddressingMode::AbsoluteY },
        0x9F => Instruction { opcode, name: "AHX", size: 0, cycles: 5, page_cycles: 0, addressing: AddressingMode::AbsoluteY },
        0xA0 => Instruction { opcode, name: "LDY", size: 2, cycles: 2, page_cycles: 0, addressing: AddressingMode::Immediate },
        0xA1 => Instruction { opcode, name: "LDA", size: 2, cycles: 6, page_cycles: 0, addressing: AddressingMode::IndexedIndirect },
        0xA2 => Instruction { opcode, name: "LDX", size: 2, cycles: 2, page_cycles: 0, addressing: AddressingMode::Immediate },
        0xA3 => Instruction { opcode, name: "LAX", size: 2, cycles: 6, page_cycles: 0, addressing: AddressingMode::IndexedIndirect },
        0xA4 => Instruction { opcode, name: "LDY", size: 2, cycles: 3, page_cycles: 0, addressing: AddressingMode::ZeroPage },
        0xA5 => Instruction { opcode, name: "LDA", size: 2, cycles: 3, page_cycles: 0, addressing: AddressingMode::ZeroPage },
        0xA6 => Instruction { opcode, name: "LDX", size: 2, cycles: 3, page_cycles: 0, addressing: AddressingMode::ZeroPage },
        0xA7 => Instruction { opcode, name: "LAX", size: 2, cycles: 3, page_cycles: 0, addressing: AddressingMode::ZeroPage },
        0xA8 => Instruction { opcode, name: "TAY", size: 1, cycles: 2, page_cycles: 0, addressing: AddressingMode::Implied },
        0xA9 => Instruction { opcode, name: "LDA", size: 2, cycles: 2, page_cycles: 0, addressing: AddressingMode::Immediate },
        0xAA => Instruction { opcode, name: "TAX", size: 1, cycles: 2, page_cycles: 0, addressing: AddressingMode::Implied },
        0xAB => Instruction { opcode, name: "LAX", size: 0, cycles: 2, page_cycles: 0, addressing: AddressingMode::Immediate },
        0xAC => Instruction { opcode, name: "LDY", size: 3, cycles: 4, page_cycles: 0, addressing: AddressingMode::Absolute },
        0xAD => Instruction { opcode, name: "LDA", size: 3, cycles: 4, page_cycles: 0, addressing: AddressingMode::Absolute },
        0xAE => Instruction { opcode, name: "LDX", size: 3, cycles: 4, page_cycles: 0, addressing: AddressingMode::Absolute },
        0xAF => Instruction { opcode, name: "LAX", size: 3, cycles: 4, page_cycles: 0, addressing: AddressingMode::Absolute },
        0xB0 => Instruction { opcode, name: "BCS", size: 2, cycles: 2, page_cycles: 1, addressing: AddressingMode::Relative },
        0xB1 => Instruction { opcode, name: "LDA", size: 2, cycles: 5, page_cycles: 1, addressing: AddressingMode::IndirectIndexed },
        0xB2 => Instruction { opcode, name: "KIL", size: 0, cycles: 2, page_cycles: 0, addressing: AddressingMode::Implied },
        0xB3 => Instruction { opcode, name: "LAX", size: 2, cycles: 5, page_cycles: 1, addressing: AddressingMode::IndirectIndexed },
        0xB4 => Instruction { opcode, name: "LDY", size: 2, cycles: 4, page_cycles: 0, addressing: AddressingMode::ZeroPageX },
        0xB5 => Instruction { opcode, name: "LDA", size: 2, cycles: 4, page_cycles: 0, addressing: AddressingMode::ZeroPageX },
        0xB6 => Instruction { opcode, name: "LDX", size: 2, cycles: 4, page_cycles: 0, addressing: AddressingMode::ZeroPageY },
        0xB7 => Instruction { opcode, name: "LAX", size: 2, cycles: 4, page_cycles: 0, addressing: AddressingMode::ZeroPageY },
        0xB8 => Instruction { opcode, name: "CLV", size: 1, cycles: 2, page_cycles: 0, addressing: AddressingMode::Implied },
        0xB9 => Instruction { opcode, name: "LDA", size: 3, cycles: 4, page_cycles: 1, addressing: AddressingMode::AbsoluteY },
        0xBA => Instruction { opcode, name: "TSX", size: 1, cycles: 2, page_cycles: 0, addressing: AddressingMode::Implied },
        0xBB => Instruction { opcode, name: "LAS", size: 0, cycles: 4, page_cycles: 1, addressing: AddressingMode::AbsoluteY },
        0xBC => Instruction { opcode, name: "LDY", size: 3, cycles: 4, page_cycles: 1, addressing: AddressingMode::AbsoluteX },
        0xBD => Instruction { opcode, name: "LDA", size: 3, cycles: 4, page_cycles: 1, addressing: AddressingMode::AbsoluteX },
        0xBE => Instruction { opcode, name: "LDX", size: 3, cycles: 4, page_cycles: 1, addressing: AddressingMode::AbsoluteY },
        0xBF => Instruction { opcode, name: "LAX", size: 3, cycles: 4, page_cycles: 1, addressing: AddressingMode::AbsoluteY },
        0xC0 => Instruction { opcode, name: "CPY", size: 2, cycles: 2, page_cycles: 0, addressing: AddressingMode::Immediate },
        0xC1 => Instruction { opcode, name: "CMP", size: 2, cycles: 6, page_cycles: 0, addressing: AddressingMode::IndexedIndirect },
        0xC2 => Instruction { opcode, name: "NOP", size: 0, cycles: 2, page_cycles: 0, addressing: AddressingMode::Immediate },
        0xC3 => Instruction { opcode, name: "DCP", size: 2, cycles: 8, page_cycles: 0, addressing: AddressingMode::IndexedIndirect },
        0xC4 => Instruction { opcode, name: "CPY", size: 2, cycles: 3, page_cycles: 0, addressing: AddressingMode::ZeroPage },
        0xC5 => Instruction { opcode, name: "CMP", size: 2, cycles: 3, page_cycles: 0, addressing: AddressingMode::ZeroPage },
        0xC6 => Instruction { opcode, name: "DEC", size: 2, cycles: 5, page_cycles: 0, addressing: AddressingMode::ZeroPage },
        0xC7 => Instruction { opcode, name: "DCP", size: 2, cycles: 5, page_cycles: 0, addressing: AddressingMode::ZeroPage },
        0xC8 => Instruction { opcode, name: "INY", size: 1, cycles: 2, page_cycles: 0, addressing: AddressingMode::Implied },
        0xC9 => Instruction { opcode, name: "CMP", size: 2, cycles: 2, page_cycles: 0, addressing: AddressingMode::Immediate },
        0xCA => Instruction { opcode, name: "DEX", size: 1, cycles: 2, page_cycles: 0, addressing: AddressingMode::Implied },
        0xCB => Instruction { opcode, name: "AXS", size: 0, cycles: 2, page_cycles: 0, addressing: AddressingMode::Immediate },
        0xCC => Instruction { opcode, name: "CPY", size: 3, cycles: 4, page_cycles: 0, addressing: AddressingMode::Absolute },
        0xCD => Instruction { opcode, name: "CMP", size: 3, cycles: 4, page_cycles: 0, addressing: AddressingMode::Absolute },
        0xCE => Instruction { opcode, name: "DEC", size: 3, cycles: 6, page_cycles: 0, addressing: AddressingMode::Absolute },
        0xCF => Instruction { opcode, name: "DCP", size: 3, cycles: 6, page_cycles: 0, addressing: AddressingMode::Absolute },
        0xD0 => Instruction { opcode, name: "BNE", size: 2, cycles: 2, page_cycles: 1, addressing: AddressingMode::Relative },
        0xD1 => Instruction { opcode, name: "CMP", size: 2, cycles: 5, page_cycles: 1, addressing: AddressingMode::IndirectIndexed },
        0xD2 => Instruction { opcode, name: "KIL", size: 0, cycles: 2, page_cycles: 0, addressing: AddressingMode::Implied },
        0xD3 => Instruction { opcode, name: "DCP", size: 2, cycles: 8, page_cycles: 0, addressing: AddressingMode::IndirectIndexed },
        0xD4 => Instruction { opcode, name: "NOP", size: 2, cycles: 4, page_cycles: 0, addressing: AddressingMode::ZeroPageX },
        0xD5 => Instruction { opcode, name: "CMP", size: 2, cycles: 4, page_cycles: 0, addressing: AddressingMode::ZeroPageX },
        0xD6 => Instruction { opcode, name: "DEC", size: 2, cycles: 6, page_cycles: 0, addressing: AddressingMode::ZeroPageX },
        0xD7 => Instruction { opcode, name: "DCP", size: 2, cycles: 6, page_cycles: 0, addressing: AddressingMode::ZeroPageX },
        0xD8 => Instruction { opcode, name: "CLD", size: 1, cycles: 2, page_cycles: 0, addressing: AddressingMode::Implied },
        0xD9 => Instruction { opcode, name: "CMP", size: 3, cycles: 4, page_cycles: 1, addressing: AddressingMode::AbsoluteY },
        0xDA => Instruction { opcode, name: "NOP", size: 1, cycles: 2, page_cycles: 0, addressing: AddressingMode::Implied },
        0xDB => Instruction { opcode, name: "DCP", size: 3, cycles: 7, page_cycles: 0, addressing: AddressingMode::AbsoluteY },
        0xDC => Instruction { opcode, name: "NOP", size: 3, cycles: 4, page_cycles: 1, addressing: AddressingMode::AbsoluteX },
        0xDD => Instruction { opcode, name: "CMP", size: 3, cycles: 4, page_cycles: 1, addressing: AddressingMode::AbsoluteX },
        0xDE => Instruction { opcode, name: "DEC", size: 3, cycles: 7, page_cycles: 0, addressing: AddressingMode::AbsoluteX },
        0xDF => Instruction { opcode, name: "DCP", size: 3, cycles: 7, page_cycles: 0, addressing: AddressingMode::AbsoluteX },
        0xE0 => Instruction { opcode, name: "CPX", size: 2, cycles: 2, page_cycles: 0, addressing: AddressingMode::Immediate },
        0xE1 => Instruction { opcode, name: "SBC", size: 2, cycles: 6, page_cycles: 0, addressing: AddressingMode::IndexedIndirect },
        0xE2 => Instruction { opcode, name: "NOP", size: 0, cycles: 2, page_cycles: 0, addressing: AddressingMode::Immediate },
        0xE3 => Instruction { opcode, name: "ISC", size: 2, cycles: 8, page_cycles: 0, addressing: AddressingMode::IndexedIndirect },
        0xE4 => Instruction { opcode, name: "CPX", size: 2, cycles: 3, page_cycles: 0, addressing: AddressingMode::ZeroPage },
        0xE5 => Instruction { opcode, name: "SBC", size: 2, cycles: 3, page_cycles: 0, addressing: AddressingMode::ZeroPage },
        0xE6 => Instruction { opcode, name: "INC", size: 2, cycles: 5, page_cycles: 0, addressing: AddressingMode::ZeroPage },
        0xE7 => Instruction { opcode, name: "ISC", size: 2, cycles: 5, page_cycles: 0, addressing: AddressingMode::ZeroPage },
        0xE8 => Instruction { opcode, name: "INX", size: 1, cycles: 2, page_cycles: 0, addressing: AddressingMode::Implied },
        0xE9 => Instruction { opcode, name: "SBC", size: 2, cycles: 2, page_cycles: 0, addressing: AddressingMode::Immediate },
        0xEA => Instruction { opcode, name: "NOP", size: 1, cycles: 2, page_cycles: 0, addressing: AddressingMode::Implied },
        0xEB => Instruction { opcode, name: "SBC", size: 2, cycles: 2, page_cycles: 0, addressing: AddressingMode::Immediate },
        0xEC => Instruction { opcode, name: "CPX", size: 3, cycles: 4, page_cycles: 0, addressing: AddressingMode::Absolute },
        0xED => Instruction { opcode, name: "SBC", size: 3, cycles: 4, page_cycles: 0, addressing: AddressingMode::Absolute },
        0xEE => Instruction { opcode, name: "INC", size: 3, cycles: 6, page_cycles: 0, addressing: AddressingMode::Absolute },
        0xEF => Instruction { opcode, name: "ISC", size: 3, cycles: 6, page_cycles: 0, addressing: AddressingMode::Absolute },
        0xF0 => Instruction { opcode, name: "BEQ", size: 2, cycles: 2, page_cycles: 1, addressing: AddressingMode::Relative },
        0xF1 => Instruction { opcode, name: "SBC", size: 2, cycles: 5, page_cycles: 1, addressing: AddressingMode::IndirectIndexed },
        0xF2 => Instruction { opcode, name: "KIL", size: 0, cycles: 2, page_cycles: 0, addressing: AddressingMode::Implied },
        0xF3 => Instruction { opcode, name: "ISC", size: 2, cycles: 8, page_cycles: 0, addressing: AddressingMode::IndirectIndexed },
        0xF4 => Instruction { opcode, name: "NOP", size: 2, cycles: 4, page_cycles: 0, addressing: AddressingMode::ZeroPageX },
        0xF5 => Instruction { opcode, name: "SBC", size: 2, cycles: 4, page_cycles: 0, addressing: AddressingMode::ZeroPageX },
        0xF6 => Instruction { opcode, name: "INC", size: 2, cycles: 6, page_cycles: 0, addressing: AddressingMode::ZeroPageX },
        0xF7 => Instruction { opcode, name: "ISC", size: 2, cycles: 6, page_cycles: 0, addressing: AddressingMode::ZeroPageX },
        0xF8 => Instruction { opcode, name: "SED", size: 1, cycles: 2, page_cycles: 0, addressing: AddressingMode::Implied },
        0xF9 => Instruction { opcode, name: "SBC", size: 3, cycles: 4, page_cycles: 1, addressing: AddressingMode::AbsoluteY },
        0xFA => Instruction { opcode, name: "NOP", size: 1, cycles: 2, page_cycles: 0, addressing: AddressingMode::Implied },
        0xFB => Instruction { opcode, name: "ISC", size: 3, cycles: 7, page_cycles: 0, addressing: AddressingMode::AbsoluteY },
        0xFC => Instruction { opcode, name: "NOP", size: 3, cycles: 4, page_cycles: 1, addressing: AddressingMode::AbsoluteX },
        0xFD => Instruction { opcode, name: "SBC", size: 3, cycles: 4, page_cycles: 1, addressing: AddressingMode::AbsoluteX },
        0xFE => Instruction { opcode, name: "INC", size: 3, cycles: 7, page_cycles: 0, addressing: AddressingMode::AbsoluteX },
        _ => Instruction { opcode, name: "ISC", size: 3, cycles: 7, page_cycles: 0, addressing: AddressingMode::AbsoluteX },
    }
}

/// The operation of `opcode`.
pub fn operation(opcode: u8) -> (r: Operation)
    ensures
        r == operation_of(opcode),
{
    match opcode {
        0x00 => Operation::Brk,
        0x01 => Operation::Ora,
        0x02 => Operation::Unsupported,
        0x03 => Operation::Slo,
        0x04 => Operation::Nop,
        0x05 => Operation::Ora,
        0x06 => Operation::Asl,
        0x07 => Operation::Slo,
        0x08 => Operation::Php,
        0x09 => Operation::Ora,
        0x0A => Operation::Asl,
        0x0B => Operation::Unsupported,
        0x0C => Operation::Nop,
        0x0D => Operation::Ora,
        0x0E => Operation::Asl,
        0x0F => Operation::Slo,
        0x10 => Operation::Bpl,
        0x11 => Operation::Ora,
        0x12 => Operation::Unsupported,
        0x13 => Operation::Slo,
        0x14 => Operation::Nop,
        0x15 => Operation::Ora,
        0x16 => Operation::Asl,
        0x17 => Operation::Slo,
        0x18 => Operation::Clc,
        0x19 => Operation::Ora,
        0x1A => Operation::Nop,
        0x1B => Operation::Slo,
        0x1C => Operation::Nop,
        0x1D => Operation::Ora,
        0x1E => Operation::Asl,
        0x1F => Operation::Slo,
        0x20 => Operation::Jsr,
        0x21 => Operation::And,
        0x22 => Operation::Unsupported,
        0x23 => Operation::Rla,
        0x24 => Operation::Bit,
        0x25 => Operation::And,
        0x26 => Operation::Rol,
        0x27 => Operation::Rla,
        0x28 => Operation::Plp,
        0x29 => Operation::And,
        0x2A => Operation::Rol,
        0x2B => Operation::Unsupported,
        0x2C => Operation::Bit,
        0x2D => Operation::And,
        0x2E => Operation::Rol,
        0x2F => Operation::Rla,
        0x30 => Operation::Bmi,
        0x31 => Operation::And,
        0x32 => Operation::Unsupported,
        0x33 => Operation::Rla,
        0x34 => Operation::Nop,
        0x35 => Operation::And,
        0x36 => Operation::Rol,
        0x37 => Operation::Rla,
        0x38 => Operation::Sec,
        0x39 => Operation::And,
        0x3A => Operation::Nop,
        0x3B => Operation::Rla,
        0x3C => Operation::Nop,
        0x3D => Operation::And,
        0x3E => Operation::Rol,
        0x3F => Operation::Rla,
        0x40 => Operation::Rti,
        0x41 => Operation::Eor,
        0x42 => Operation::Unsupported,
        0x43 => Operation::Sre,
        0x44 => Operation::Nop,
        0x45 => Operation::Eor,
        0x46 => Operation::Lsr,
        0x47 => Operation::Sre,
        0x48 => Operation::Pha,
        0x49 => Operation::Eor,
        0x4A => Operation::Lsr,
        0x4B => Operation::Unsupported,
        0x4C => Operation::Jmp,
        0x4D => Operation::Eor,
        0x4E => Operation::Lsr,
        0x4F => Operation::Sre,
        0x50 => Operation::Bvc,
        0x51 => Operation::Eor,
        0x52 => Operation::Unsupported,
        0x53 => Operation::Sre,
        0x54 => Operation::Nop,
        0x55 => Operation::Eor,
        0x56 => Operation::Lsr,
        0x57 => Operation::Sre,
        0x58 => Operation::Cli,
        0x59 => Operation::Eor,
        0x5A => Operation::Nop,
        0x5B => Operation::Sre,
        0x5C => Operation::Nop,
        0x5D => Operation::Eor,
        0x5E => Operation::Lsr,
        0x5F => Operation::Sre,
        0x60 => Operation::Rts,
        0x61 => Operation::Adc,
        0x62 => Operation::Unsupported,
        0x63 => Operation::Rra,
        0x64 => Operation::Nop,
        0x65 => Operation::Adc,
        0x66 => Operation::Ror,
        0x67 => Operation::Rra,
        0x68 => Operation::Pla,
        0x69 => Operation::Adc,
        0x6A => Operation::Ror,
        0x6B => Operation::Unsupported,
        0x6C => Operation::Jmp,
        0x6D => Operation::Adc,
        0x6E => Operation::Ror,
        0x6F => Operation::Rra,
        0x70 => Operation::Bvs,
        0x71 => Operation::Adc,
        0x72 => Operation::Unsupported,
        0x73 => Operation::Rra,
        0x74 => Operation::Nop,
        0x75 => Operation::Adc,
        0x76 => Operation::Ror,
        0x77 => Operation::Rra,
        0x78 => Operation::Sei,
        0x79 => Operation::Adc,
        0x7A => Operation::Nop,
        0x7B => Operation::Rra,
        0x7C => Operation::Nop,
        0x7D => Operation::Adc,
        0x7E => Operation::Ror,
        0x7F => Operation::Rra,
        0x80 => Operation::Nop,
        0x81 => Operation::Sta,
        0x82 => Operation::Nop,
        0x83 => Operation::Sax,
        0x84 => Operation::Sty,
        0x85 => Operation::Sta,
        0x86 => Operation::Stx,
        0x87 => Operation::Sax,
        0x88 => Operation::Dey,
        0x89 => Operation::Unsupported,
        0x8A => Operation::Txa,
        0x8B => Operation::Unsupported,
        0x8C => Operation::Sty,
        0x8D => Operation::Sta,
        0x8E => Operation::Stx,
        0x8F => Operation::Sax,
        0x90 => Operation::Bcc,
        0x91 => Operation::Sta,
        0x92 => Operation::Unsupported,
        0x93 => Operation::Unsupported,
        0x94 => Operation::Sty,
        0x95 => Operation::Sta,
        0x96 => Operation::Stx,
        0x97 => Operation::Sax,
        0x98 => Operation::Tya,
        0x99 => Operation::Sta,
        0x9A => Operation::Txs,
        0x9B => Operation::Unsupported,
        0x9C => Operation::Unsupported,
        0x9D => Operation::Sta,
        0x9E => Operation::Unsupported,
        0x9F => Operation::Unsupported,
        0xA0 => Operation::Ldy,
        0xA1 => Operation::Lda,
        0xA2 => Operation::Ldx,
        0xA3 => Operation::Lax,
        0xA4 => Operation::Ldy,
        0xA5 => Operation::Lda,
        0xA6 => Operation::Ldx,
        0xA7 => Operation::Lax,
        0xA8 => Operation::Tay,
        0xA9 => Operation::Lda,
        0xAA => Operation::Tax,
        0xAB => Operation::Unsupported,
        0xAC => Operation::Ldy,
        0xAD => Operation::Lda,
        0xAE => Operation::Ldx,
        0xAF => Operation::Lax,
        0xB0 => Operation::Bcs,
        0xB1 => Operation::Lda,
        0xB2 => Operation::Unsupported,
        0xB3 => Operation::Lax,
        0xB4 => Operation::Ldy,
        0xB5 => Operation::Lda,
        0xB6 => Operation::Ldx,
        0xB7 => Operation::Lax,
        0xB8 => Operation::Clv,
        0xB9 => Operation::Lda,
        0xBA => Operation::Tsx,
        0xBB => Operation::Unsupported,
        0xBC => Operation::Ldy,
        0xBD => Operation::Lda,
        0xBE => Operation::Ldx,
        0xBF => Operation::Lax,
        0xC0 => Operation::Cpy,
        0xC1 => Operation::Cmp,
        0xC2 => Operation::Unsupported,
        0xC3 => Operation::Dcp,
        0xC4 => Operation::Cpy,
        0xC5 => Operation::Cmp,
        0xC6 => Operation::Dec,
        0xC7 => Operation::Dcp,
        0xC8 => Operation::Iny,
        0xC9 => Operation::Cmp,
        0xCA => Operation::Dex,
        0xCB => Operation::Unsupported,
        0xCC => Operation::Cpy,
        0xCD => Operation::Cmp,
        0xCE => Operation::Dec,
        0xCF => Operation::Dcp,
        0xD0 => Operation::Bne,
        0xD1 => Operation::Cmp,
        0xD2 => Operation::Unsupported,
        0xD3 => Operation::Dcp,
        0xD4 => Operation::Nop,
        0xD5 => Operation::Cmp,
        0xD6 => Operation::Dec,
        0xD7 => Operation::Dcp,
        0xD8 => Operation::Cld,
        0xD9 => Operation::Cmp,
        0xDA => Operation::Nop,
        0xDB => Operation::Dcp,
        0xDC => Operation::Nop,
        0xDD => Operation::Cmp,
        0xDE => Operation::Dec,
        0xDF => Operation::Dcp,
        0xE0 => Operation::Cpx,
        0xE1 => Operation::Sbc,
        0xE2 => Operation::Unsupported,
        0xE3 => Operation::Isc,
        0xE4 => Operation::Cpx,
        0xE5 => Operation::Sbc,
        0xE6 => Operation::Inc,
        0xE7 => Operation::Isc,
        0xE8 => Operation::Inx,
        0xE9 => Operation::Sbc,
        0xEA => Operation::Nop,
        0xEB => Operation::Sbc,
        0xEC => Operation::Cpx,
        0xED => Operation::Sbc,
        0xEE => Operation::Inc,
        0xEF => Operation::Isc,
        0xF0 => Operation::Beq,
        0xF1 => Operation::Sbc,
        0xF2 => Operation::Unsupported,
        0xF3 => Operation::Isc,
        0xF4 => Operation::Nop,
        0xF5 => Operation::Sbc,
        0xF6 => Operation::Inc,
        0xF7 => Operation::Isc,
        0xF8 => Operation::Sed,
        0xF9 => Operation::Sbc,
        0xFA => Operation::Nop,
        0xFB => Operation::Isc,
        0xFC => Operation::Nop,
        0xFD => Operation::Sbc,
        0xFE => Operation::Inc,
        _ => Operation::Isc,
    }
}

} // verus!
