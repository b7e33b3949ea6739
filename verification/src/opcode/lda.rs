//! LDA: load the accumulator.

use crate::cpu::{bit_of, Memory, RegisterState, Registers};
use crate::opcode::utils::{
    lemma_flags_of_a_byte, mem, set_sign, set_zero, spec_is_sign, spec_is_zero,
};
use crate::opcode::Cycle;
use vstd::prelude::*;

verus! {

/// The registers after loading `val` into the accumulator: the zero and
/// sign flags follow `val`, everything else stays.
pub open spec fn spec_lda(r: RegisterState, val: u8) -> RegisterState {
    RegisterState {
        a: val,
        zero: spec_is_zero(val as int),
        sign: spec_is_sign(val as int),
        ..r
    }
}

/// Loads `val` into the accumulator and sets the zero and sign flags from
/// it.
#[inline]
pub fn lda(registers: &mut Registers, val: u8)
    ensures
        final(registers)@ == spec_lda(old(registers)@, val),
{
    set_zero(registers, val as u16);
    set_sign(registers, val as u16);
    registers.a = val;
}

/// LDA with immediate addressing: 2 cycles.
pub fn lda_imm(registers: &mut Registers, mem: &mut Memory) -> (cycle: Cycle)
    ensures
        final(registers)@ == spec_lda(
            old(registers)@,
            mem::spec_read_imm(old(mem)@, old(registers)@),
        ),
        final(mem)@ == old(mem)@,
        cycle.0 == 2,
{
    let val: u8 = mem::read_imm(mem, registers);
    lda(registers, val);
    Cycle(2)
}

/// LDA with zero page addressing: 3 cycles.
pub fn lda_zero_page(registers: &mut Registers, mem: &mut Memory) -> (cycle: Cycle)
    ensures
        final(registers)@ == spec_lda(
            old(registers)@,
            mem::spec_read_zero_page(old(mem)@, old(registers)@),
        ),
        final(mem)@ == old(mem)@,
        cycle.0 == 3,
{
    let val: u8 = mem::read_zero_page(mem, registers);
    lda(registers, val);
    Cycle(3)
}

/// LDA with zero page,X addressing: 4 cycles.
pub fn lda_zero_page_x(registers: &mut Registers, mem: &mut Memory) -> (cycle: Cycle)
    ensures
        final(registers)@ == spec_lda(
            old(registers)@,
            mem::spec_read_zero_page_x(old(mem)@, old(registers)@),
        ),
        final(mem)@ == old(mem)@,
        cycle.0 == 4,
{
    let val: u8 = mem::read_zero_page_x(mem, registers);
    lda(registers, val);
    Cycle(4)
}

/// LDA with absolute addressing: 4 cycles.
pub fn lda_abs(registers: &mut Registers, mem: &mut Memory) -> (cycle: Cycle)
    ensures
        final(registers)@ == spec_lda(
            old(registers)@,
            mem::spec_read_abs(old(mem)@, old(registers)@),
        ),
        final(mem)@ == old(mem)@,
        cycle.0 == 4,
{
    let val: u8 = mem::read_abs(mem, registers);
    lda(registers, val);
    Cycle(4)
}

/// LDA with absolute,X addressing: 4 cycles, and one more when the
/// index carries the address onto the next page.
pub fn lda_abs_x(registers: &mut Registers, mem: &mut Memory) -> (cycle: Cycle)
    ensures
        final(registers)@ == spec_lda(
            old(registers)@,
            mem::spec_read_abs_x(old(mem)@, old(registers)@).0,
        ),
        final(mem)@ == old(mem)@,
        cycle.0 == if mem::spec_read_abs_x(old(mem)@, old(registers)@).1 {
            5u32
        } else {
            4u32
        },
{
    let (val, page_crossed): (u8, bool) = mem::read_abs_x(mem, registers);
    lda(registers, val);
    match page_crossed {
        true => Cycle(5),
        false => Cycle(4),
    }
}

/// LDA with absolute,Y addressing: 4 cycles, and one more when the
/// index carries the address onto the next page.
pub fn lda_abs_y(registers: &mut Registers, mem: &mut Memory) -> (cycle: Cycle)
    ensures
        final(registers)@ == spec_lda(
            old(registers)@,
            mem::spec_read_abs_y(old(mem)@, old(registers)@).0,
        ),
        final(mem)@ == old(mem)@,
        cycle.0 == if mem::spec_read_abs_y(old(mem)@, old(registers)@).1 {
            5u32
        } else {
            4u32
        },
{
    let (val, page_crossed): (u8, bool) = mem::read_abs_y(mem, registers);
    lda(registers, val);
    match page_crossed {
        true => Cycle(5),
        false => Cycle(4),
    }
}

/// LDA with indirect,X addressing: 6 cycles.
pub fn lda_indirect_x(registers: &mut Registers, mem: &mut Memory) -> (cycle: Cycle)
    ensures
        final(registers)@ == spec_lda(
            old(registers)@,
            mem::spec_read_indirect_x(old(mem)@, old(registers)@),
        ),
        final(mem)@ == old(mem)@,
        cycle.0 == 6,
{
    let val: u8 = mem::read_indirect_x(mem, registers);
    lda(registers, val);
    Cycle(6)
}

/// LDA with indirect,Y addressing: 5 cycles, and one more when the
/// index carries the address onto the next page.
pub fn lda_indirect_y(registers: &mut Registers, mem: &mut Memory) -> (cycle: Cycle)
    ensures
        final(registers)@ == spec_lda(
            old(registers)@,
            mem::spec_read_indirect_y(old(mem)@, old(registers)@).0,
        ),
        final(mem)@ == old(mem)@,
        cycle.0 == if mem::spec_read_indirect_y(old(mem)@, old(registers)@).1 {
            6u32
        } else {
            5u32
        },
{
    let (val, page_crossed): (u8, bool) = mem::read_indirect_y(mem, registers);
    lda(registers, val);
    match page_crossed {
        true => Cycle(6),
        false => Cycle(5),
    }
}

/// A load sets the zero flag exactly when the loaded byte is zero and the
/// sign flag exactly when its bit 7 is set. It leaves the carry, overflow,
/// decimal-mode, interrupt-disable and break-command flags untouched, and
/// every register but the accumulator.
pub proof fn lemma_lda_flags(r: RegisterState, val: u8)
    ensures
        spec_lda(r, val).a == val,
        spec_lda(r, val).zero == (val == 0),
        spec_lda(r, val).sign == bit_of(val, 7),
        spec_lda(r, val).carry == r.carry,
        spec_lda(r, val).overflow == r.overflow,
        spec_lda(r, val).decimal_mode == r.decimal_mode,
        spec_lda(r, val).interrupt_disable == r.interrupt_disable,
        spec_lda(r, val).break_command == r.break_command,
        spec_lda(r, val) == (RegisterState {
            a: val,
            zero: spec_lda(r, val).zero,
            sign: spec_lda(r, val).sign,
            ..r
        }),
{
    lemma_flags_of_a_byte(val);
}

} // verus!
