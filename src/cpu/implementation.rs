use vstd::prelude::*;
use super::cpu::{
    bit, lemma_flags_round_trip, lemma_flags_unpack_pack, operand_memory, dec8, different_pages, inc8, is_different_pages, operand_address, stack_slot, word_at,
    CpuError, Info, Interrupt, CPU, INTERRUPT_CYCLES, IRQ_VECTOR, NMI_VECTOR,
};
use super::description::{describe, descriptor, operation, operation_of, AddressingMode, Operation};
use super::memory::CpuMemory;
use crate::ppu::{wrap16, wrap64};

verus! {

/// Result, carry and overflow of `a + m + c`.
pub open spec fn add_with_carry(a: u8, m: u8, c: u8) -> (u8, u8, u8) {
    let result = ((a + m + c) % 256) as u8;
    (
        result,
        if a + m + c > 0xFF {
            1
        } else {
            0
        },
        if (a ^ m) & 0x80 == 0 && (a ^ result) & 0x80 != 0 {
            1
        } else {
            0
        },
    )
}

/// Result, carry (no borrow) and overflow of `a - m - (1 - c)`.
pub open spec fn subtract_with_carry(a: u8, m: u8, c: u8) -> (u8, u8, u8) {
    let result = ((a - m - (1 - c) + 512) % 256) as u8;
    (
        result,
        if a - m - (1 - c) >= 0 {
            1
        } else {
            0
        },
        if (a ^ m) & 0x80 != 0 && (a ^ result) & 0x80 != 0 {
            1
        } else {
            0
        },
    )
}

/// `x - 1` on 8 bits.
pub open spec fn dec_byte(x: u8) -> u8 {
    ((x + 255) % 256) as u8
}

/// `x + 1` on 8 bits.
pub open spec fn inc_byte(x: u8) -> u8 {
    ((x + 1) % 256) as u8
}

/// `s` after a compare of `reg` with `m`: Z and N from the difference, C when no borrow.
pub open spec fn compared(s: CPU, reg: u8, m: u8) -> CPU {
    CPU {
        c: if reg >= m {
            1
        } else {
            0
        },
        ..CPU::with_zn(s, ((reg - m + 256) % 256) as u8)
    }
}

/// `s` after an add with carry of `m` into A.
pub open spec fn added(s: CPU, m: u8) -> CPU {
    let (r, c, v) = add_with_carry(s.a, m, s.c);
    CPU { a: r, c: c, v: v, ..CPU::with_zn(s, r) }
}

/// `s` after a subtract with carry of `m` from A.
pub open spec fn subtracted(s: CPU, m: u8) -> CPU {
    let (r, c, v) = subtract_with_carry(s.a, m, s.c);
    CPU { a: r, c: c, v: v, ..CPU::with_zn(s, r) }
}

/// A shift or rotate of `value`: the new value and the carry out.
pub open spec fn shifted(op: Operation, value: u8, carry: u8) -> (u8, u8) {
    match op {
        Operation::Asl | Operation::Slo => (value << 1u8, (value >> 7u8) & 1),
        Operation::Lsr | Operation::Sre => (value >> 1u8, value & 1),
        Operation::Rol | Operation::Rla => ((value << 1u8) | carry, (value >> 7u8) & 1),
        _ => ((value >> 1u8) | (carry << 7u8), value & 1),
    }
}

/// A taken branch moves PC to the target for one extra cycle, two across a page.
pub open spec fn branch_post(s: CPU, t: CPU, info: Info, taken: bool, extra: usize) -> bool {
    if taken {
        t == (CPU { pc: info.address, ..s }) && extra == 1 + if different_pages(
            info.pc,
            info.address,
        ) {
            1int
        } else {
            0
        }
    } else {
        t == s && extra == 0
    }
}

/// The value that a read-modify-write instruction writes back, and the
/// registers that it leaves.
pub open spec fn read_modify(op: Operation, s: CPU, address: u16) -> (u8, CPU) {
    let val = s.mem.peek(address);
    let r = CPU::read_state(s, address);
    let (sh, c) = shifted(op, val, s.c);
    match op {
        Operation::Inc => (inc_byte(val), CPU::with_zn(r, inc_byte(val))),
        Operation::Dec => (dec_byte(val), CPU::with_zn(r, dec_byte(val))),
        Operation::Isc => (inc_byte(val), subtracted(r, inc_byte(val))),
        Operation::Dcp => (dec_byte(val), compared(r, r.a, dec_byte(val))),
        Operation::Slo => (sh, CPU::with_zn((CPU { c: c, a: r.a | sh, ..r }), r.a | sh)),
        Operation::Rla => (sh, CPU::with_zn((CPU { c: c, a: r.a & sh, ..r }), r.a & sh)),
        Operation::Sre => (sh, CPU::with_zn((CPU { c: c, a: r.a ^ sh, ..r }), r.a ^ sh)),
        Operation::Rra => (sh, added((CPU { c: c, ..r }), sh)),
        _ => (sh, CPU::with_zn((CPU { c: c, ..r }), sh)),
    }
}

/// Shifts and rotates applied to the accumulator.
pub open spec fn on_accumulator(op: Operation, s: CPU) -> CPU {
    let (sh, c) = shifted(op, s.a, s.c);
    CPU::with_zn((CPU { c: c, a: sh, ..s }), sh)
}

/// What executing `op` with `info` does to `s`, giving `t` and `extra` cycles.
#[verifier::opaque]
pub open spec fn op_post(op: Operation, s: CPU, t: CPU, info: Info, extra: usize) -> bool {
    let addr = info.address;
    let val = s.mem.peek(addr);
    let r = CPU::read_state(s, addr);
    let rmw = read_modify(op, s, addr);
    match op {
        Operation::Lda => t == CPU::with_zn((CPU { a: val, ..r }), val) && extra == 0,
        Operation::Ldx => t == CPU::with_zn((CPU { x: val, ..r }), val) && extra == 0,
        Operation::Ldy => t == CPU::with_zn((CPU { y: val, ..r }), val) && extra == 0,
        Operation::Lax => t == CPU::with_zn((CPU { a: val, x: val, ..r }), val) && extra == 0,
        Operation::And => t == CPU::with_zn((CPU { a: s.a & val, ..r }), s.a & val) && extra == 0,
        Operation::Ora => t == CPU::with_zn((CPU { a: s.a | val, ..r }), s.a | val) && extra == 0,
        Operation::Eor => t == CPU::with_zn((CPU { a: s.a ^ val, ..r }), s.a ^ val) && extra == 0,
        Operation::Adc => t == added(r, val) && extra == 0,
        Operation::Sbc => t == subtracted(r, val) && extra == 0,
        Operation::Cmp => t == compared(r, s.a, val) && extra == 0,
        Operation::Cpx => t == compared(r, s.x, val) && extra == 0,
        Operation::Cpy => t == compared(r, s.y, val) && extra == 0,
        Operation::Bit => t == (CPU {
            v: (val >> 6u8) & 1,
            z: CPU::with_zn(s, val & s.a).z,
            n: CPU::with_zn(s, val).n,
            ..r
        }) && extra == 0,
        Operation::Asl | Operation::Lsr | Operation::Rol | Operation::Ror => extra == 0 && if info.mode
            == AddressingMode::Accumulator {
            t == on_accumulator(op, s)
        } else {
            CPU::write_post(rmw.1, t, addr, rmw.0)
        },
        Operation::Inc | Operation::Dec | Operation::Slo | Operation::Rla | Operation::Sre
        | Operation::Rra | Operation::Dcp | Operation::Isc => extra == 0 && CPU::write_post(
            rmw.1,
            t,
            addr,
            rmw.0,
        ),
        Operation::Sta => CPU::write_post(s, t, addr, s.a) && extra == 0,
        Operation::Stx => CPU::write_post(s, t, addr, s.x) && extra == 0,
        Operation::Sty => CPU::write_post(s, t, addr, s.y) && extra == 0,
        Operation::Sax => CPU::write_post(s, t, addr, s.a & s.x) && extra == 0,
        Operation::Inx => t == CPU::with_zn((CPU { x: inc_byte(s.x), ..s }), inc_byte(s.x))
            && extra == 0,
        Operation::Iny => t == CPU::with_zn((CPU { y: inc_byte(s.y), ..s }), inc_byte(s.y))
            && extra == 0,
        Operation::Dex => t == CPU::with_zn((CPU { x: dec_byte(s.x), ..s }), dec_byte(s.x))
            && extra == 0,
        Operation::Dey => t == CPU::with_zn((CPU { y: dec_byte(s.y), ..s }), dec_byte(s.y))
            && extra == 0,
        Operation::Tax => t == CPU::with_zn((CPU { x: s.a, ..s }), s.a) && extra == 0,
        Operation::Tay => t == CPU::with_zn((CPU { y: s.a, ..s }), s.a) && extra == 0,
        Operation::Txa => t == CPU::with_zn((CPU { a: s.x, ..s }), s.x) && extra == 0,
        Operation::Tya => t == CPU::with_zn((CPU { a: s.y, ..s }), s.y) && extra == 0,
        Operation::Tsx => t == CPU::with_zn((CPU { x: s.sp, ..s }), s.sp) && extra == 0,
        Operation::Txs => t == (CPU { sp: s.x, ..s }) && extra == 0,
        Operation::Clc => t == (CPU { c: 0, ..s }) && extra == 0,
        Operation::Sec => t == (CPU { c: 1, ..s }) && extra == 0,
        Operation::Cli => t == (CPU { i: 0, ..s }) && extra == 0,
        Operation::Sei => t == (CPU { i: 1, ..s }) && extra == 0,
        Operation::Cld => t == (CPU { d: 0, ..s }) && extra == 0,
        Operation::Sed => t == (CPU { d: 1, ..s }) && extra == 0,
        Operation::Clv => t == (CPU { v: 0, ..s }) && extra == 0,
        Operation::Pha => CPU::push_post(s, t, s.a) && extra == 0,
        Operation::Php => CPU::push_post(s, t, s.flags() | 0x10) && extra == 0,
        Operation::Pla => t == CPU::with_zn((CPU { a: CPU::top(s), sp: inc8(s.sp), ..s }), CPU::top(s))
            && extra == 0,
        Operation::Plp => t == (CPU {
            sp: inc8(s.sp),
            ..CPU::with_flags(s, (CPU::top(s) & 0xEF) | 0x20)
        }) && extra == 0,
        Operation::Jmp => t == (CPU { pc: addr, ..s }) && extra == 0,
        Operation::Jsr => CPU::push_word_post(s, (CPU { pc: s.pc, ..t }), wrap16(s.pc + 0xFFFF))
            && t.pc == addr && extra == 0,
        Operation::Rts => t == (CPU {
            sp: inc8(inc8(s.sp)),
            pc: wrap16(CPU::top_word(s) + 1),
            ..s
        }) && extra == 0,
        Operation::Rti => t == (CPU {
            sp: inc8(inc8(inc8(s.sp))),
            pc: CPU::top_word((CPU { sp: inc8(s.sp), ..s })),
            ..CPU::with_flags(s, (CPU::top(s) & 0xEF) | 0x20)
        }) && extra == 0,
        Operation::Brk => extra == 0 && t.mem.ram@ == s.mem.ram@.update(
            stack_slot(s.sp),
            (wrap16(s.pc + 1) >> 8u16) as u8,
        ).update(stack_slot(dec8(s.sp)), (wrap16(s.pc + 1) & 0xFF) as u8).update(
            stack_slot(dec8(dec8(s.sp))),
            s.flags() | 0x30,
        ) && t == (CPU {
            mem: CpuMemory { ram: t.mem.ram, ..s.mem },
            sp: dec8(dec8(dec8(s.sp))),
            i: 1,
            pc: word_at(s.mem, IRQ_VECTOR),
            ..s
        }),
        Operation::Bpl => branch_post(s, t, info, s.n == 0, extra),
        Operation::Bmi => branch_post(s, t, info, s.n != 0, extra),
        Operation::Bvc => branch_post(s, t, info, s.v == 0, extra),
        Operation::Bvs => branch_post(s, t, info, s.v != 0, extra),
        Operation::Bcc => branch_post(s, t, info, s.c == 0, extra),
        Operation::Bcs => branch_post(s, t, info, s.c != 0, extra),
        Operation::Bne => branch_post(s, t, info, s.z == 0, extra),
        Operation::Beq => branch_post(s, t, info, s.z != 0, extra),
        Operation::Nop | Operation::Unsupported => t == s && extra == 0,
    }
}

impl CPU {
    fn add_value(&mut self, m: u8)
        requires
            old(self).wf(),
        ensures
            final(self).wf(),
            *final(self) == added(*old(self), m),
    {
        let a = self.a;
        let sum: u16 = a as u16 + m as u16 + self.c as u16;
        let result = (sum % 256) as u8;
        self.set_zn(result);
        self.a = result;
        self.c = if sum > 0xFF {
            1
        } else {
            0
        };
        self.v = if (a ^ m) & 0x80 == 0 && (a ^ result) & 0x80 != 0 {
            1
        } else {
            0
        };
    }

    fn subtract_value(&mut self, m: u8)
        requires
            old(self).wf(),
        ensures
            final(self).wf(),
            *final(self) == subtracted(*old(self), m),
    {
        let a = self.a;
        let diff: i16 = a as i16 - m as i16 - (1 - self.c as i16);
        let result = ((diff + 512) % 256) as u8;
        self.set_zn(result);
        self.a = result;
        self.c = if diff >= 0 {
            1
        } else {
            0
        };
        self.v = if (a ^ m) & 0x80 != 0 && (a ^ result) & 0x80 != 0 {
            1
        } else {
            0
        };
    }

    /// Sets Z and N from `a - b` and C when `a >= b`.
    pub fn compare(&mut self, a: u8, b: u8)
        requires
            old(self).wf(),
        ensures
            final(self).wf(),
            *final(self) == compared(*old(self), a, b),
    {
        let value = ((a as u16 + 256 - b as u16) % 256) as u8;
        self.set_zn(value);
        self.c = if a >= b {
            1
        } else {
            0
        };
    }

    /// A taken branch: PC to the target, one cycle more, two across a page.
    fn branch(&mut self, info: &Info, taken: bool) -> (extra: usize)
        ensures
            branch_post(*old(self), *final(self), *info, taken, extra),
    {
        if taken {
            self.pc = info.address;
            if is_different_pages(info.pc, info.address) {
                2
            } else {
                1
            }
        } else {
            0
        }
    }

    fn shift_accumulator(&mut self, op: Operation)
        requires
            old(self).wf(),
        ensures
            final(self).wf(),
            *final(self) == on_accumulator(op, *old(self)),
    {
        let val = self.a;
        let (sh, c): (u8, u8) = match op {
            Operation::Asl | Operation::Slo => (val << 1u8, (val >> 7u8) & 1),
            Operation::Lsr | Operation::Sre => (val >> 1u8, val & 1),
            Operation::Rol | Operation::Rla => ((val << 1u8) | self.c, (val >> 7u8) & 1),
            _ => ((val >> 1u8) | (self.c << 7u8), val & 1),
        };
        assert((val >> 7u8) & 1 <= 1 && val & 1 <= 1) by (bit_vector);
        self.c = c;
        self.a = sh;
        self.set_zn(sh);
    }

    /// Reads the operand, computes the value to write back and the new
    /// registers, then writes the value.
    fn read_modify_write(&mut self, op: Operation, address: u16)
        requires
            old(self).wf(),
        ensures
            CPU::write_post(
                read_modify(op, *old(self), address).1,
                *final(self),
                address,
                read_modify(op, *old(self), address).0,
            ),
    {
        let val = self.read(address);
        let (sh, c): (u8, u8) = match op {
            Operation::Asl | Operation::Slo => (val << 1u8, (val >> 7u8) & 1),
            Operation::Lsr | Operation::Sre => (val >> 1u8, val & 1),
            Operation::Rol | Operation::Rla => ((val << 1u8) | self.c, (val >> 7u8) & 1),
            _ => ((val >> 1u8) | (self.c << 7u8), val & 1),
        };
        assert((val >> 7u8) & 1 <= 1 && val & 1 <= 1) by (bit_vector);
        let inc = ((val as u16 + 1) % 256) as u8;
        let dec = ((val as u16 + 255) % 256) as u8;
        let new: u8 = match op {
            Operation::Inc => {
                self.set_zn(inc);
                inc
            },
            Operation::Dec => {
                self.set_zn(dec);
                dec
            },
            Operation::Isc => {
                self.subtract_value(inc);
                inc
            },
            Operation::Dcp => {
                let a = self.a;
                self.compare(a, dec);
                dec
            },
            Operation::Slo => {
                self.c = c;
                self.a = self.a | sh;
                let a = self.a;
                self.set_zn(a);
                sh
            },
            Operation::Rla => {
                self.c = c;
                self.a = self.a & sh;
                let a = self.a;
                self.set_zn(a);
                sh
            },
            Operation::Sre => {
                self.c = c;
                self.a = self.a ^ sh;
                let a = self.a;
                self.set_zn(a);
                sh
            },
            Operation::Rra => {
                self.c = c;
                self.add_value(sh);
                sh
            },
            _ => {
                self.c = c;
                self.set_zn(sh);
                sh
            },
        };
        self.write(address, new);
    }
}

impl CPU {
    /// PHP: pushes the status with the B bit set.
    pub fn php(&mut self, _info: &Info)
        requires
            old(self).wf(),
        ensures
            final(self).wf(),
            CPU::push_post(*old(self), *final(self), old(self).flags() | 0x10),
    {
        let flags = self.get_flags() | 0x10;
        self.push(flags);
    }

    /// PLP: pulls the status with bit 4 forced low and bit 5 forced high.
    pub fn plp(&mut self)
        requires
            old(self).wf(),
        ensures
            final(self).wf(),
            *final(self) == (CPU {
                sp: inc8(old(self).sp),
                ..CPU::with_flags(*old(self), (CPU::top(*old(self)) & 0xEF) | 0x20)
            }),
    {
        let value = self.pop();
        self.set_flags((value & 0xEF) | 0x20);
    }

    /// BRK: pushes the address after its padding byte and the status with
    /// bits 4 and 5 set, then jumps through the IRQ vector.
    fn brk(&mut self, info: &Info)
        requires
            old(self).wf(),
        ensures
            final(self).wf(),
            op_post(Operation::Brk, *old(self), *final(self), *info, 0),
    {
        reveal(op_post);
        let ghost s0 = *self;
        let ret = self.pc.wrapping_add(1);
        self.push_word(ret);
        let ghost s1 = *self;
        let flags = self.get_flags() | 0x30;
        assert(flags == s0.flags() | 0x30);
        self.push(flags);
        let ghost s2 = *self;
        self.i = 1;
        let ghost s3 = *self;
        assert(word_at(s3.mem, IRQ_VECTOR) == word_at(s0.mem, IRQ_VECTOR));
        self.pc = self.read_word(IRQ_VECTOR);
        assert(self.mem == s3.mem);
        assert(s2.mem.ram@ == s0.mem.ram@.update(
            stack_slot(s0.sp),
            (wrap16(s0.pc + 1) >> 8u16) as u8,
        ).update(stack_slot(dec8(s0.sp)), (wrap16(s0.pc + 1) & 0xFF) as u8).update(
            stack_slot(dec8(dec8(s0.sp))),
            s0.flags() | 0x30,
        ));
    }

    /// Runs the operation of one instruction; returns the extra cycles of a taken branch.
    #[verifier::rlimit(80)]
    pub fn execute(&mut self, op: Operation, info: &Info) -> (extra: usize)
        requires
            old(self).wf(),
        ensures
            final(self).wf(),
            op_post(op, *old(self), *final(self), *info, extra),
            extra <= 2,
            final(self).cycles == old(self).cycles,
    {
        reveal(op_post);
        let address = info.address;
        match op {
            Operation::Lda => {
                self.a = self.read(address);
                let a = self.a;
                self.set_zn(a);
                0
            },
            Operation::Ldx => {
                self.x = self.read(address);
                let x = self.x;
                self.set_zn(x);
                0
            },
            Operation::Ldy => {
                self.y = self.read(address);
                let y = self.y;
                self.set_zn(y);
                0
            },
            Operation::Lax => {
                let value = self.read(address);
                self.a = value;
                self.x = value;
                self.set_zn(value);
                0
            },
            Operation::And => {
                self.a = self.a & self.read(address);
                let a = self.a;
                self.set_zn(a);
                0
            },
            Operation::Ora => {
                self.a = self.a | self.read(address);
                let a = self.a;
                self.set_zn(a);
                0
            },
            Operation::Eor => {
                self.a = self.a ^ self.read(address);
                let a = self.a;
                self.set_zn(a);
                0
            },
            Operation::Adc => {
                let value = self.read(address);
                self.add_value(value);
                0
            },
            Operation::Sbc => {
                let value = self.read(address);
                self.subtract_value(value);
                0
            },
            Operation::Cmp => {
                let value = self.read(address);
                let a = self.a;
                self.compare(a, value);
                0
            },
            Operation::Cpx => {
                let value = self.read(address);
                let x = self.x;
                self.compare(x, value);
                0
            },
            Operation::Cpy => {
                let value = self.read(address);
                let y = self.y;
                self.compare(y, value);
                0
            },
            Operation::Bit => {
                let value = self.read(address);
                self.v = (value >> 6u8) & 1;
                assert((value >> 6u8) & 1 <= 1) by (bit_vector);
                let a = self.a;
                self.set_z(value & a);
                self.set_n(value);
                0
            },
            Operation::Asl | Operation::Lsr | Operation::Rol | Operation::Ror => {
                if info.mode == AddressingMode::Accumulator {
                    self.shift_accumulator(op);
                } else {
                    self.read_modify_write(op, address);
                }
                0
            },
            Operation::Inc | Operation::Dec | Operation::Slo | Operation::Rla | Operation::Sre
            | Operation::Rra | Operation::Dcp | Operation::Isc => {
                self.read_modify_write(op, address);
                0
            },
            Operation::Sta => {
                let a = self.a;
                self.write(address, a);
                0
            },
            Operation::Stx => {
                let x = self.x;
                self.write(address, x);
                0
            },
            Operation::Sty => {
                let y = self.y;
                self.write(address, y);
                0
            },
            Operation::Sax => {
                let value = self.a & self.x;
                self.write(address, value);
                0
            },
            Operation::Inx => {
                self.x = ((self.x as u16 + 1) % 256) as u8;
                let x = self.x;
                self.set_zn(x);
                0
            },
            Operation::Iny => {
                self.y = ((self.y as u16 + 1) % 256) as u8;
                let y = self.y;
                self.set_zn(y);
                0
            },
            Operation::Dex => {
                self.x = ((self.x as u16 + 255) % 256) as u8;
                let x = self.x;
                self.set_zn(x);
                0
            },
            Operation::Dey => {
                self.y = ((self.y as u16 + 255) % 256) as u8;
                let y = self.y;
                self.set_zn(y);
                0
            },
            Operation::Tax => {
                self.x = self.a;
                let x = self.x;
                self.set_zn(x);
                0
            },
            Operation::Tay => {
                self.y = self.a;
                let y = self.y;
                self.set_zn(y);
                0
            },
            Operation::Txa => {
                self.a = self.x;
                let a = self.a;
                self.set_zn(a);
                0
            },
            Operation::Tya => {
                self.a = self.y;
                let a = self.a;
                self.set_zn(a);
                0
            },
            Operation::Tsx => {
                self.x = self.sp;
                let x = self.x;
                self.set_zn(x);
                0
            },
            Operation::Txs => {
                self.sp = self.x;
                0
            },
            Operation::Clc => {
                self.c = 0;
                0
            },
            Operation::Sec => {
                self.c = 1;
                0
            },
            Operation::Cli => {
                self.i = 0;
                0
            },
            Operation::Sei => {
                self.i = 1;
                0
            },
            Operation::Cld => {
                self.d = 0;
                0
            },
            Operation::Sed => {
                self.d = 1;
                0
            },
            Operation::Clv => {
                self.v = 0;
                0
            },
            Operation::Pha => {
                let a = self.a;
                self.push(a);
                0
            },
            Operation::Php => {
                self.php(info);
                0
            },
            Operation::Pla => {
                self.a = self.pop();
                let a = self.a;
                self.set_zn(a);
                0
            },
            Operation::Plp => {
                self.plp();
                0
            },
            Operation::Jmp => {
                self.pc = address;
                0
            },
            Operation::Jsr => {
                let ret = self.pc.wrapping_sub(1);
                self.push_word(ret);
                self.pc = address;
                0
            },
            Operation::Rts => {
                self.pc = self.pop_word().wrapping_add(1);
                0
            },
            Operation::Rti => {
                self.plp();
                self.pc = self.pop_word();
                0
            },
            Operation::Brk => {
                self.brk(info);
                0
            },
            Operation::Bpl => {
                let taken = self.n == 0;
                self.branch(info, taken)
            },
            Operation::Bmi => {
                let taken = self.n != 0;
                self.branch(info, taken)
            },
            Operation::Bvc => {
                let taken = self.v == 0;
                self.branch(info, taken)
            },
            Operation::Bvs => {
                let taken = self.v != 0;
                self.branch(info, taken)
            },
            Operation::Bcc => {
                let taken = self.c == 0;
                self.branch(info, taken)
            },
            Operation::Bcs => {
                let taken = self.c != 0;
                self.branch(info, taken)
            },
            Operation::Bne => {
                let taken = self.z == 0;
                self.branch(info, taken)
            },
            Operation::Beq => {
                let taken = self.z != 0;
                self.branch(info, taken)
            },
            Operation::Nop | Operation::Unsupported => 0,
        }
    }
}

/// `t` is `s` after the pending interrupt, if any, was serviced: PC and the
/// status with B cleared pushed, I set, PC loaded from the vector.
pub open spec fn serviced(s: CPU, t: CPU) -> bool {
    if s.interrupt == Interrupt::Idle {
        t == s
    } else {
        let vector = if s.interrupt == Interrupt::NMI {
            NMI_VECTOR
        } else {
            IRQ_VECTOR
        };
        &&& t.mem.ram@ == s.mem.ram@.update(stack_slot(s.sp), (s.pc >> 8u16) as u8).update(
            stack_slot(dec8(s.sp)),
            (s.pc & 0xFF) as u8,
        ).update(stack_slot(dec8(dec8(s.sp))), s.flags() & 0xEF)
        &&& t == (CPU {
            mem: CpuMemory { ram: t.mem.ram, ..s.mem },
            sp: dec8(dec8(dec8(s.sp))),
            i: 1,
            pc: word_at(s.mem, vector),
            interrupt: Interrupt::Idle,
            cycles: wrap64(s.cycles + INTERRUPT_CYCLES),
            ..s
        })
    }
}

/// Cycles of servicing the interrupt pending in `s`.
pub open spec fn interrupt_cycles(s: CPU) -> int {
    if s.interrupt == Interrupt::Idle {
        0
    } else {
        INTERRUPT_CYCLES as int
    }
}

/// What one step from `s` (not stalled), after the interrupt service that
/// gave `s1`, leaves in `t` and returns in `r`.
pub open spec fn dispatch_post(
    s: CPU,
    s1: CPU,
    t: CPU,
    r: Result<usize, CpuError>,
) -> bool {
    let opcode = s1.mem.load_value(s1.pc);
    let d = descriptor(opcode);
    let op = operation_of(opcode);
    let f = CPU { mem: CpuMemory::after_load(s1.mem, s1.pc), ..s1 };
    if op == Operation::Unsupported {
        t == f && r == Err::<usize, CpuError>(CpuError::UnsupportedOpcode { opcode: opcode, pc: s1.pc })
    } else {
        let (address, crossed) = operand_address(f, wrap16(s1.pc + 1), d.3);
        let s2 = CPU { mem: operand_memory(f, wrap16(s1.pc + 1), d.3), ..f };
        exists|s3: CPU, s4: CPU, info: Info, extra: usize|
            #![trigger op_post(op, s3, s4, info, extra)]
            {
                let elapsed = interrupt_cycles(s) + d.1 + (if crossed {
                    d.2 as int
                } else {
                    0
                }) + extra;
                &&& info.address == address
                &&& info.pc == wrap16(s1.pc + d.0)
                &&& info.mode == d.3
                &&& s3 == (CPU { pc: info.pc, ..s2 })
                &&& op_post(op, s3, s4, info, extra)
                &&& t == (CPU { cycles: wrap64(s1.cycles + elapsed - interrupt_cycles(s)), ..s4 })
                &&& r == match t.mem.fault {
                    Some(a) => Err(CpuError::UnmappedAccess(a)),
                    None => Ok(elapsed as usize),
                }
            }
    }
}

impl CPU {
    /// What one step from `s` leaves in `t` and returns in `r`.
    pub open spec fn step_post(s: CPU, t: CPU, r: Result<usize, CpuError>) -> bool {
        &&& t.wf()
        &&& s.stall > 0 ==> r == Ok::<usize, CpuError>(1) && t == (CPU {
            stall: (s.stall - 1) as usize,
            cycles: wrap64(s.cycles + 1),
            ..s
        })
        &&& s.stall == 0 ==> exists|s1: CPU| serviced(s, s1) && dispatch_post(s, s1, t, r)
        &&& r matches Ok(n) ==> 1 <= n <= 18 && t.cycles == wrap64(s.cycles + n)
    }

    /// Services an interrupt through `vector`.
    fn interrupt_to(&mut self, vector: u16)
        requires
            old(self).wf(),
            vector >= 0x6000,
        ensures
            final(self).wf(),
            final(self).mem.ram@ == old(self).mem.ram@.update(
                stack_slot(old(self).sp),
                (old(self).pc >> 8u16) as u8,
            ).update(stack_slot(dec8(old(self).sp)), (old(self).pc & 0xFF) as u8).update(
                stack_slot(dec8(dec8(old(self).sp))),
                old(self).flags() & 0xEF,
            ),
            *final(self) == (CPU {
                mem: CpuMemory { ram: final(self).mem.ram, ..old(self).mem },
                sp: dec8(dec8(dec8(old(self).sp))),
                i: 1,
                pc: word_at(old(self).mem, vector),
                cycles: wrap64(old(self).cycles + INTERRUPT_CYCLES),
                ..*old(self)
            }),
    {
        let ghost s0 = *self;
        let pc = self.pc;
        self.push_word(pc);
        let flags = self.get_flags() & 0xEF;
        assert(flags == s0.flags() & 0xEF);
        self.push(flags);
        let ghost s2 = *self;
        self.i = 1;
        let ghost s3 = *self;
        assert(word_at(s3.mem, vector) == word_at(s0.mem, vector));
        self.pc = self.read_word(vector);
        assert(self.mem == s3.mem);
        assert((pc >> 8u16) as u8 == (s0.pc >> 8u16) as u8);
        self.cycles = self.cycles.wrapping_add(INTERRUPT_CYCLES as u64);
    }

    /// NMI: pushes PC and status, sets I, jumps through 0xFFFA; takes 7 cycles.
    pub fn nmi(&mut self)
        requires
            old(self).wf(),
        ensures
            final(self).wf(),
            final(self).cycles == wrap64(old(self).cycles + INTERRUPT_CYCLES),
            serviced(
                (CPU { interrupt: Interrupt::NMI, ..*old(self) }),
                (CPU { interrupt: Interrupt::Idle, ..*final(self) }),
            ),
    {
        self.interrupt_to(NMI_VECTOR);
    }

    /// IRQ: pushes PC and status, sets I, jumps through 0xFFFE; takes 7 cycles.
    pub fn irq(&mut self)
        requires
            old(self).wf(),
        ensures
            final(self).wf(),
            final(self).cycles == wrap64(old(self).cycles + INTERRUPT_CYCLES),
            serviced(
                (CPU { interrupt: Interrupt::IRQ, ..*old(self) }),
                (CPU { interrupt: Interrupt::Idle, ..*final(self) }),
            ),
    {
        self.interrupt_to(IRQ_VECTOR);
    }

    /// Executes one instruction, after a pending interrupt if any, and returns
    /// the cycles it took; while stalled by DMA, consumes one cycle.
    #[verifier::rlimit(100)]
    pub fn step(&mut self) -> (r: Result<usize, CpuError>)
        requires
            old(self).wf(),
        ensures
            CPU::step_post(*old(self), *final(self), r),
    {
        if self.stall > 0 {
            self.stall = self.stall - 1;
            self.cycles = self.cycles.wrapping_add(1);
            return Ok(1);
        }
        let ghost s0 = *self;
        let mut serviced_cycles: usize = 0;
        match self.interrupt {
            Interrupt::NMI => {
                self.nmi();
                serviced_cycles = INTERRUPT_CYCLES;
            },
            Interrupt::IRQ => {
                self.irq();
                serviced_cycles = INTERRUPT_CYCLES;
            },
            Interrupt::Idle => {},
        }
        let mut elapsed: usize = serviced_cycles;
        self.interrupt = Interrupt::Idle;
        let ghost s1 = *self;
        assert(serviced(s0, s1));
        let pc = self.pc;
        let opcode = self.mem.load(pc);
        let instruction = describe(opcode);
        let op = operation(opcode);
        if op == Operation::Unsupported {
            return Err(CpuError::UnsupportedOpcode { opcode, pc });
        }
        let ghost f = *self;
        let (address, page_cycles) = self.get_address(pc.wrapping_add(1), &instruction);
        let ghost s2 = *self;
        elapsed = elapsed + instruction.cycles + page_cycles;
        self.pc = pc.wrapping_add(instruction.size);
        let info = Info { address, pc: self.pc, mode: instruction.addressing, i: instruction };
        let ghost s3 = *self;
        let extra = self.execute(op, &info);
        let ghost s4 = *self;
        elapsed = elapsed + extra;
        self.cycles = self.cycles.wrapping_add((elapsed - serviced_cycles) as u64);
        let r = match self.mem.fault {
            Some(a) => Err(CpuError::UnmappedAccess(a)),
            None => Ok(elapsed),
        };
        proof {
            assert(f == (CPU { mem: CpuMemory::after_load(s1.mem, s1.pc), ..s1 }));
            assert(s4.cycles == s1.cycles);
            assert(s1.cycles == wrap64(s0.cycles + serviced_cycles));
            assert(self.cycles == wrap64(s0.cycles + elapsed));
            assert(op_post(op, s3, s4, info, extra));
        }
        r
    }
}

/// PHP followed by PLP restores every flag but B, which comes back
/// cleared, and U, which comes back set; the stack pointer is restored.
pub proof fn lemma_php_plp(s: CPU, t: CPU, u: CPU)
    requires
        s.wf(),
        CPU::push_post(s, t, s.flags() | 0x10),
        u == (CPU { sp: inc8(t.sp), ..CPU::with_flags(t, (CPU::top(t) & 0xEF) | 0x20) }),
    ensures
        u.flags() == (s.flags() & 0xEF) | 0x20,
        u.sp == s.sp,
        u.c == s.c && u.z == s.z && u.i == s.i && u.d == s.d && u.v == s.v && u.n == s.n,
        u.b == 0 && u.u == 1,
        u.a == s.a && u.x == s.x && u.y == s.y && u.pc == s.pc,
{
    let f = s.flags();
    let g = ((f | 0x10) & 0xEF) | 0x20;
    assert(CPU::top(t) == f | 0x10);
    assert(g == (f & 0xEF) | 0x20) by (bit_vector)
        requires
            g == ((f | 0x10) & 0xEF) | 0x20,
    ;
    lemma_flags_round_trip(g);
    lemma_flags_unpack_pack(s.c, s.z, s.i, s.d, s.b, s.u, s.v, s.n);
    assert(bit(g, 0) == bit(f, 0) && bit(g, 1) == bit(f, 1) && bit(g, 2) == bit(f, 2) && bit(g, 3)
        == bit(f, 3) && bit(g, 6) == bit(f, 6) && bit(g, 7) == bit(f, 7) && bit(g, 4) == 0 && bit(
        g,
        5,
    ) == 1) by (bit_vector)
        requires
            g == (f & 0xEF) | 0x20,
    ;
}

} // verus!
