//! BIT: test bits of a memory byte against the accumulator.

use crate::cpu::{bit_of, Memory, RegisterState, Registers};
use crate::opcode::utils::{mem, set_sign, spec_is_sign};
use crate::opcode::Cycle;
use vstd::prelude::*;

verus! {

/// The registers after testing `val`: sign and overflow copy its bits 7 and
/// 6, and zero says that `val` and the accumulator have no set bit in
/// common. The accumulator itself stays.
pub open spec fn spec_bit(r: RegisterState, val: u8) -> RegisterState {
    RegisterState {
        sign: spec_is_sign(val as int),
        overflow: bit_of(val, 6),
        zero: val & r.a == 0,
        ..r
    }
}

#[inline]
fn bit_6(val: u8) -> (set: bool)
    ensures
        set == bit_of(val, 6),
{
    assert((0b01000000 & val > 0) == ((val >> 6u8) & 1 == 1)) by (bit_vector);
    0b01000000 & val > 0
}

/// Tests `val` against the accumulator and sets the sign, overflow and zero
/// flags.
#[inline]
pub fn bit(registers: &mut Registers, val: u8)
    ensures
        final(registers)@ == spec_bit(old(registers)@, val),
{
    let a: u8 = registers.a;
    set_sign(registers, val as u16);
    registers.set_overflow_flag(bit_6(val));
    registers.set_zero_flag(val & a == 0);
}

/// BIT with zero page addressing: 3 cycles.
pub fn bit_zero_page(registers: &mut Registers, mem: &mut Memory) -> (cycle: Cycle)
    ensures
        final(registers)@ == spec_bit(
            old(registers)@,
            mem::spec_read_zero_page(old(mem)@, old(registers)@),
        ),
        final(mem)@ == old(mem)@,
        cycle.0 == 3,
{
    let val: u8 = mem::read_zero_page(mem, registers);
    bit(registers, val);
    Cycle(3)
}

/// BIT with absolute addressing: 4 cycles.
pub fn bit_abs(registers: &mut Registers, mem: &mut Memory) -> (cycle: Cycle)
    ensures
        final(registers)@ == spec_bit(
            old(registers)@,
            mem::spec_read_abs(old(mem)@, old(registers)@),
        ),
        final(mem)@ == old(mem)@,
        cycle.0 == 4,
{
    let val: u8 = mem::read_abs(mem, registers);
    bit(registers, val);
    Cycle(4)
}

} // verus!
