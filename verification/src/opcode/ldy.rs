//! LDY: load the Y register.

use crate::cpu::{bit_of, Memory, RegisterState, Registers};
use crate::opcode::utils::{
    lemma_flags_of_a_byte, mem, set_sign, set_zero, spec_is_sign, spec_is_zero,
};
use crate::opcode::Cycle;
use vstd::prelude::*;

verus! {

/// The registers after loading `val` into the Y register: the zero and
/// sign flags follow `val`, everything else stays.
pub open spec fn spec_ldy(r: RegisterState, val: u8) -> RegisterState {
    RegisterState {
        y: val,
        zero: spec_is_zero(val as int),
        sign: spec_is_sign(val as int),
        ..r
    }
}

/// Loads `val` into the Y register and sets the zero and sign flags from
/// it.
#[inline]
pub fn ldy(registers: &mut Registers, val: u8)
    ensures
        final(registers)@ == spec_ldy(old(registers)@, val),
{
    set_zero(registers, val as u16);
    set_sign(registers, val as u16);
    registers.y = val;
}

/// LDY with immediate addressing: 2 cycles.
pub fn ldy_imm(registers: &mut Registers, mem: &mut Memory) -> (cycle: Cycle)
    ensures
        final(registers)@ == spec_ldy(
            old(registers)@,
            mem::spec_read_imm(old(mem)@, old(registers)@),
        ),
        final(mem)@ == old(mem)@,
        cycle.0 == 2,
{
    let val: u8 = mem::read_imm(mem, registers);
    ldy(registers, val);
    Cycle(2)
}

/// LDY with zero page addressing: 3 cycles.
pub fn ldy_zero_page(registers: &mut Registers, mem: &mut Memory) -> (cycle: Cycle)
    ensures
        final(registers)@ == spec_ldy(
            old(registers)@,
            mem::spec_read_zero_page(old(mem)@, old(registers)@),
        ),
        final(mem)@ == old(mem)@,
        cycle.0 == 3,
{
    let val: u8 = mem::read_zero_page(mem, registers);
    ldy(registers, val);
    Cycle(3)
}

/// LDY with zero page,X addressing: 4 cycles.
pub fn ldy_zero_page_x(registers: &mut Registers, mem: &mut Memory) -> (cycle: Cycle)
    ensures
        final(registers)@ == spec_ldy(
            old(registers)@,
            mem::spec_read_zero_page_x(old(mem)@, old(registers)@),
        ),
        final(mem)@ == old(mem)@,
        cycle.0 == 4,
{
    let val: u8 = mem::read_zero_page_x(mem, registers);
    ldy(registers, val);
    Cycle(4)
}

/// LDY with absolute addressing: 4 cycles.
pub fn ldy_abs(registers: &mut Registers, mem: &mut Memory) -> (cycle: Cycle)
    ensures
        final(registers)@ == spec_ldy(
            old(registers)@,
            mem::spec_read_abs(old(mem)@, old(registers)@),
        ),
        final(mem)@ == old(mem)@,
        cycle.0 == 4,
{
    let val: u8 = mem::read_abs(mem, registers);
    ldy(registers, val);
    Cycle(4)
}

/// LDY with absolute,X addressing: 4 cycles, and one more when the
/// index carries the address onto the next page.
pub fn ldy_abs_x(registers: &mut Registers, mem: &mut Memory) -> (cycle: Cycle)
    ensures
        final(registers)@ == spec_ldy(
            old(registers)@,
            mem::spec_read_abs_x(old(mem)@, old(registers)@).0,
        ),
        final(mem)@ == old(mem)@,
        cycle.0 == if mem::spec_read_abs_x(old(mem)@, old(registers)@).1 {
            5u32
        } else {
            4u32
        },
{
    let (val, page_crossed): (u8, bool) = mem::read_abs_x(mem, registers);
    ldy(registers, val);
    match page_crossed {
        true => Cycle(5),
        false => Cycle(4),
    }
}

/// A load sets the zero flag exactly when the loaded byte is zero and the
/// sign flag exactly when its bit 7 is set. It leaves the carry, overflow,
/// decimal-mode, interrupt-disable and break-command flags untouched, and
/// every register but the Y register.
pub proof fn lemma_ldy_flags(r: RegisterState, val: u8)
    ensures
        spec_ldy(r, val).y == val,
        spec_ldy(r, val).zero == (val == 0),
        spec_ldy(r, val).sign == bit_of(val, 7),
        spec_ldy(r, val).carry == r.carry,
        spec_ldy(r, val).overflow == r.overflow,
        spec_ldy(r, val).decimal_mode == r.decimal_mode,
        spec_ldy(r, val).interrupt_disable == r.interrupt_disable,
        spec_ldy(r, val).break_command == r.break_command,
        spec_ldy(r, val) == (RegisterState {
            y: val,
            zero: spec_ldy(r, val).zero,
            sign: spec_ldy(r, val).sign,
            ..r
        }),
{
    lemma_flags_of_a_byte(val);
}

} // verus!
