//! ASL: arithmetic shift left, of the accumulator or of a byte in memory.

use crate::cpu::{bit_of, Memory, RegisterState, Registers};
use crate::opcode::utils::{
    lemma_flags_of_a_byte, mem, set_sign, set_zero, spec_is_sign, spec_is_zero,
};
use crate::opcode::Cycle;
use vstd::prelude::*;

verus! {

/// The byte `val` shifted left by one bit: bit 0 becomes 0 and bit 7 is
/// dropped.
pub open spec fn spec_asl_value(val: u8) -> u8 {
    ((2 * val) % 0x100) as u8
}

/// The registers after shifting `val`: carry takes bit 7 of `val` as it was
/// before the shift, and the zero and sign flags follow the shifted byte.
pub open spec fn spec_asl(r: RegisterState, val: u8) -> RegisterState {
    RegisterState {
        carry: val >= 0x80,
        sign: spec_is_sign(spec_asl_value(val) as int),
        zero: spec_is_zero(spec_asl_value(val) as int),
        ..r
    }
}

/// Registers and memory after shifting the byte at `addr` in place.
pub open spec fn spec_asl_memory(r: RegisterState, mem: Seq<u8>, addr: u16) -> (
    RegisterState,
    Seq<u8>,
) {
    (spec_asl(r, mem[addr as int]), mem.update(addr as int, spec_asl_value(mem[addr as int])))
}

/// Shifts `val` left by one bit, sets the carry, zero and sign flags, and
/// returns the shifted byte.
#[inline]
pub fn asl(registers: &mut Registers, val: u8) -> (new_val: u8)
    ensures
        final(registers)@ == spec_asl(old(registers)@, val),
        new_val == spec_asl_value(val),
{
    assert(((val & 0b10000000) > 0) == (val >= 0x80)) by (bit_vector);
    registers.set_carry_flag((val & 0b10000000) > 0);
    assert(val << 1 == (2 * val) % 0x100) by (bit_vector);
    let new_val: u8 = val << 1;
    set_sign(registers, new_val as u16);
    set_zero(registers, new_val as u16);
    new_val
}

/// ASL of the accumulator: 2 cycles.
pub fn asl_register_a(registers: &mut Registers, _mem: &mut Memory) -> (cycle: Cycle)
    ensures
        final(registers)@ == (RegisterState {
            a: spec_asl_value(old(registers)@.a),
            ..spec_asl(old(registers)@, old(registers)@.a)
        }),
        final(_mem)@ == old(_mem)@,
        cycle.0 == 2,
{
    let val: u8 = registers.a;
    let new_val: u8 = asl(registers, val);
    registers.a = new_val;
    Cycle(2)
}

/// ASL of the byte at a zero page address, written back in place: 5
/// cycles.
pub fn asl_zero_page(registers: &mut Registers, mem: &mut Memory) -> (cycle: Cycle)
    ensures
        (final(registers)@, final(mem)@) == spec_asl_memory(
            old(registers)@,
            old(mem)@,
            mem::spec_get_zero_page_addr(old(mem)@, old(registers)@),
        ),
        cycle.0 == 5,
{
    let addr: u16 = mem::get_zero_page_addr(mem, registers);
    let val: u8 = mem.read(addr);
    let result: u8 = asl(registers, val);
    mem.write(addr, result);
    Cycle(5)
}

/// ASL of the byte at a zero page,X address, written back in place: 6
/// cycles.
pub fn asl_zero_page_x(registers: &mut Registers, mem: &mut Memory) -> (cycle: Cycle)
    ensures
        (final(registers)@, final(mem)@) == spec_asl_memory(
            old(registers)@,
            old(mem)@,
            mem::spec_get_zero_page_x_addr(old(mem)@, old(registers)@),
        ),
        cycle.0 == 6,
{
    let addr: u16 = mem::get_zero_page_x_addr(mem, registers);
    let val: u8 = mem.read(addr);
    let result: u8 = asl(registers, val);
    mem.write(addr, result);
    Cycle(6)
}

/// ASL of the byte at a absolute address, written back in place: 6
/// cycles.
pub fn asl_abs(registers: &mut Registers, mem: &mut Memory) -> (cycle: Cycle)
    ensures
        (final(registers)@, final(mem)@) == spec_asl_memory(
            old(registers)@,
            old(mem)@,
            mem::spec_get_abs_addr(old(mem)@, old(registers)@),
        ),
        cycle.0 == 6,
{
    let addr: u16 = mem::get_abs_addr(mem, registers);
    let val: u8 = mem.read(addr);
    let result: u8 = asl(registers, val);
    mem.write(addr, result);
    Cycle(6)
}

/// ASL of the byte at an absolute,X address, written back in place: 7
/// cycles, whether or not the index crosses a page.
pub fn asl_abs_x(registers: &mut Registers, mem: &mut Memory) -> (cycle: Cycle)
    ensures
        (final(registers)@, final(mem)@) == spec_asl_memory(
            old(registers)@,
            old(mem)@,
            mem::spec_get_abs_x_addr(old(mem)@, old(registers)@).0,
        ),
        cycle.0 == 7,
{
    let (addr, _page_crossed): (u16, bool) = mem::get_abs_x_addr(mem, registers);
    let val: u8 = mem.read(addr);
    let result: u8 = asl(registers, val);
    mem.write(addr, result);
    Cycle(7)
}

/// A shift left moves bit 7 of the byte into the carry flag and every other
/// bit one place up: the result is the byte shifted by one bit and cut to
/// eight bits, so its bit 0 is clear. Zero and sign follow the result. The
/// other flags and registers stay.
pub proof fn lemma_asl_result(r: RegisterState, val: u8)
    ensures
        spec_asl(r, val).carry == bit_of(val, 7),
        spec_asl_value(val) == (val << 1) & 0xFF,
        !bit_of(spec_asl_value(val), 0),
        spec_asl(r, val).zero == (spec_asl_value(val) == 0),
        spec_asl(r, val).sign == bit_of(spec_asl_value(val), 7),
        spec_asl(r, val) == (RegisterState {
            carry: spec_asl(r, val).carry,
            zero: spec_asl(r, val).zero,
            sign: spec_asl(r, val).sign,
            ..r
        }),
{
    lemma_flags_of_a_byte(val);
    lemma_flags_of_a_byte(spec_asl_value(val));
    assert((val << 1) & 0xFF == (2 * val) % 0x100 && !bit_of(((2 * val) % 0x100) as u8, 0))
        by (bit_vector);
}

} // verus!
