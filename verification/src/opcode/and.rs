//! AND: bitwise AND with the accumulator.

use crate::cpu::{Memory, RegisterState, Registers};
use crate::opcode::utils::{mem, set_sign, set_zero, spec_is_sign, spec_is_zero};
use crate::opcode::Cycle;
use vstd::prelude::*;

verus! {

/// The registers after ANDing `val` into the accumulator: the zero and sign
/// flags follow the result, everything else stays.
pub open spec fn spec_and(r: RegisterState, val: u8) -> RegisterState {
    RegisterState {
        a: val & r.a,
        sign: spec_is_sign((val & r.a) as int),
        zero: spec_is_zero((val & r.a) as int),
        ..r
    }
}

/// ANDs `val` into the accumulator and sets the zero and sign flags from
/// the result.
#[inline]
pub fn and(registers: &mut Registers, val: u8)
    ensures
        final(registers)@ == spec_and(old(registers)@, val),
{
    let a: u8 = registers.a;
    let result: u8 = val & a;
    set_sign(registers, result as u16);
    set_zero(registers, result as u16);
    registers.a = result;
}

/// AND with immediate addressing: 2 cycles.
pub fn and_imm(registers: &mut Registers, mem: &mut Memory) -> (cycle: Cycle)
    ensures
        final(registers)@ == spec_and(
            old(registers)@,
            mem::spec_read_imm(old(mem)@, old(registers)@),
        ),
        final(mem)@ == old(mem)@,
        cycle.0 == 2,
{
    let val: u8 = mem::read_imm(mem, registers);
    and(registers, val);
    Cycle(2)
}

/// AND with zero page addressing: 3 cycles.
pub fn and_zero_page(registers: &mut Registers, mem: &mut Memory) -> (cycle: Cycle)
    ensures
        final(registers)@ == spec_and(
            old(registers)@,
            mem::spec_read_zero_page(old(mem)@, old(registers)@),
        ),
        final(mem)@ == old(mem)@,
        cycle.0 == 3,
{
    let val: u8 = mem::read_zero_page(mem, registers);
    and(registers, val);
    Cycle(3)
}

/// AND with zero page,X addressing: 4 cycles.
pub fn and_zero_page_x(registers: &mut Registers, mem: &mut Memory) -> (cycle: Cycle)
    ensures
        final(registers)@ == spec_and(
            old(registers)@,
            mem::spec_read_zero_page_x(old(mem)@, old(registers)@),
        ),
        final(mem)@ == old(mem)@,
        cycle.0 == 4,
{
    let val: u8 = mem::read_zero_page_x(mem, registers);
    and(registers, val);
    Cycle(4)
}

/// AND with absolute addressing: 4 cycles.
pub fn and_abs(registers: &mut Registers, mem: &mut Memory) -> (cycle: Cycle)
    ensures
        final(registers)@ == spec_and(
            old(registers)@,
            mem::spec_read_abs(old(mem)@, old(registers)@),
        ),
        final(mem)@ == old(mem)@,
        cycle.0 == 4,
{
    let val: u8 = mem::read_abs(mem, registers);
    and(registers, val);
    Cycle(4)
}

/// AND with absolute,X addressing: 4 cycles, and one more when the
/// index carries the address onto the next page.
pub fn and_abs_x(registers: &mut Registers, mem: &mut Memory) -> (cycle: Cycle)
    ensures
        final(registers)@ == spec_and(
            old(registers)@,
            mem::spec_read_abs_x(old(mem)@, old(registers)@).0,
        ),
        final(mem)@ == old(mem)@,
        cycle.0 == if mem::spec_read_abs_x(old(mem)@, old(registers)@).1 {
            5u32
        } else {
            4u32
        },
{
    let (val, page_crossed): (u8, bool) = mem::read_abs_x(mem, registers);
    and(registers, val);
    match page_crossed {
        true => Cycle(5),
        false => Cycle(4),
    }
}

/// AND with absolute,Y addressing: 4 cycles, and one more when the
/// index carries the address onto the next page.
pub fn and_abs_y(registers: &mut Registers, mem: &mut Memory) -> (cycle: Cycle)
    ensures
        final(registers)@ == spec_and(
            old(registers)@,
            mem::spec_read_abs_y(old(mem)@, old(registers)@).0,
        ),
        final(mem)@ == old(mem)@,
        cycle.0 == if mem::spec_read_abs_y(old(mem)@, old(registers)@).1 {
            5u32
        } else {
            4u32
        },
{
    let (val, page_crossed): (u8, bool) = mem::read_abs_y(mem, registers);
    and(registers, val);
    match page_crossed {
        true => Cycle(5),
        false => Cycle(4),
    }
}

/// AND with indirect,X addressing: 6 cycles.
pub fn and_indirect_x(registers: &mut Registers, mem: &mut Memory) -> (cycle: Cycle)
    ensures
        final(registers)@ == spec_and(
            old(registers)@,
            mem::spec_read_indirect_x(old(mem)@, old(registers)@),
        ),
        final(mem)@ == old(mem)@,
        cycle.0 == 6,
{
    let val: u8 = mem::read_indirect_x(mem, registers);
    and(registers, val);
    Cycle(6)
}

/// AND with indirect,Y addressing: 5 cycles, and one more when the
/// index carries the address onto the next page.
pub fn and_indirect_y(registers: &mut Registers, mem: &mut Memory) -> (cycle: Cycle)
    ensures
        final(registers)@ == spec_and(
            old(registers)@,
            mem::spec_read_indirect_y(old(mem)@, old(registers)@).0,
        ),
        final(mem)@ == old(mem)@,
        cycle.0 == if mem::spec_read_indirect_y(old(mem)@, old(registers)@).1 {
            6u32
        } else {
            5u32
        },
{
    let (val, page_crossed): (u8, bool) = mem::read_indirect_y(mem, registers);
    and(registers, val);
    match page_crossed {
        true => Cycle(6),
        false => Cycle(5),
    }
}

} // verus!
