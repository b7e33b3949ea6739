//! ADC: add with carry.

use crate::cpu::{bit_of, bit_value, Memory, RegisterState, Registers};
use crate::opcode::utils::{
    lemma_flags_of_a_byte, mem, set_carry, set_overflow, set_sign, set_zero, spec_is_carry,
    spec_is_overflow, spec_is_sign, spec_is_zero,
};
use crate::opcode::Cycle;
use vstd::prelude::*;

verus! {

/// The registers after adding `val` and the carry flag to the accumulator in
/// binary. The accumulator keeps the low eight bits of the sum; carry says
/// that the sum did not fit in them; overflow says that two operands of one
/// sign gave a result of the other; zero and sign follow the new
/// accumulator. The decimal-mode flag has no influence.
pub open spec fn spec_adc(r: RegisterState, val: u8) -> RegisterState {
    let sum = r.a + val + bit_value(r.carry);
    RegisterState {
        a: (sum % 0x100) as u8,
        zero: spec_is_zero(sum),
        sign: spec_is_sign(sum),
        overflow: spec_is_overflow(r.a, val, sum),
        carry: spec_is_carry(sum),
        ..r
    }
}

/// Adds `val` and the carry flag to the accumulator.
#[inline]
pub fn adc(registers: &mut Registers, val: u8)
    ensures
        final(registers)@ == spec_adc(old(registers)@, val),
{
    let a: u8 = registers.a;
    let carry: u16 = if registers.carry_flag() {
        1
    } else {
        0
    };
    let temp: u16 = val as u16 + a as u16 + carry;
    set_zero(registers, temp);
    set_sign(registers, temp);
    set_overflow(registers, a, val, temp);
    set_carry(registers, temp);
    assert(temp as u8 == temp % 0x100) by (bit_vector);
    registers.a = #[verifier::truncate] (temp as u8);
}

/// ADC with immediate addressing: 2 cycles.
pub fn adc_imm(registers: &mut Registers, mem: &mut Memory) -> (cycle: Cycle)
    ensures
        final(registers)@ == spec_adc(
            old(registers)@,
            mem::spec_read_imm(old(mem)@, old(registers)@),
        ),
        final(mem)@ == old(mem)@,
        cycle.0 == 2,
{
    let val: u8 = mem::read_imm(mem, registers);
    adc(registers, val);
    Cycle(2)
}

/// ADC with zero page addressing: 3 cycles.
pub fn adc_zero_page(registers: &mut Registers, mem: &mut Memory) -> (cycle: Cycle)
    ensures
        final(registers)@ == spec_adc(
            old(registers)@,
            mem::spec_read_zero_page(old(mem)@, old(registers)@),
        ),
        final(mem)@ == old(mem)@,
        cycle.0 == 3,
{
    let val: u8 = mem::read_zero_page(mem, registers);
    adc(registers, val);
    Cycle(3)
}

/// ADC with zero page,X addressing: 4 cycles.
pub fn adc_zero_page_x(registers: &mut Registers, mem: &mut Memory) -> (cycle: Cycle)
    ensures
        final(registers)@ == spec_adc(
            old(registers)@,
            mem::spec_read_zero_page_x(old(mem)@, old(registers)@),
        ),
        final(mem)@ == old(mem)@,
        cycle.0 == 4,
{
    let val: u8 = mem::read_zero_page_x(mem, registers);
    adc(registers, val);
    Cycle(4)
}

/// ADC with absolute addressing: 4 cycles.
pub fn adc_abs(registers: &mut Registers, mem: &mut Memory) -> (cycle: Cycle)
    ensures
        final(registers)@ == spec_adc(
            old(registers)@,
            mem::spec_read_abs(old(mem)@, old(registers)@),
        ),
        final(mem)@ == old(mem)@,
        cycle.0 == 4,
{
    let val: u8 = mem::read_abs(mem, registers);
    adc(registers, val);
    Cycle(4)
}

/// ADC with absolute,X addressing: 4 cycles, and one more when the
/// index carries the address onto the next page.
pub fn adc_abs_x(registers: &mut Registers, mem: &mut Memory) -> (cycle: Cycle)
    ensures
        final(registers)@ == spec_adc(
            old(registers)@,
            mem::spec_read_abs_x(old(mem)@, old(registers)@).0,
        ),
        final(mem)@ == old(mem)@,
        cycle.0 == if mem::spec_read_abs_x(old(mem)@, old(registers)@).1 {
            5u32
        } else {
            4u32
        },
{
    let (val, page_crossed): (u8, bool) = mem::read_abs_x(mem, registers);
    adc(registers, val);
    match page_crossed {
        true => Cycle(5),
        false => Cycle(4),
    }
}

/// ADC with absolute,Y addressing: 4 cycles, and one more when the
/// index carries the address onto the next page.
pub fn adc_abs_y(registers: &mut Registers, mem: &mut Memory) -> (cycle: Cycle)
    ensures
        final(registers)@ == spec_adc(
            old(registers)@,
            mem::spec_read_abs_y(old(mem)@, old(registers)@).0,
        ),
        final(mem)@ == old(mem)@,
        cycle.0 == if mem::spec_read_abs_y(old(mem)@, old(registers)@).1 {
            5u32
        } else {
            4u32
        },
{
    let (val, page_crossed): (u8, bool) = mem::read_abs_y(mem, registers);
    adc(registers, val);
    match page_crossed {
        true => Cycle(5),
        false => Cycle(4),
    }
}

/// ADC with indirect,X addressing: 6 cycles.
pub fn adc_indirect_x(registers: &mut Registers, mem: &mut Memory) -> (cycle: Cycle)
    ensures
        final(registers)@ == spec_adc(
            old(registers)@,
            mem::spec_read_indirect_x(old(mem)@, old(registers)@),
        ),
        final(mem)@ == old(mem)@,
        cycle.0 == 6,
{
    let val: u8 = mem::read_indirect_x(mem, registers);
    adc(registers, val);
    Cycle(6)
}

/// ADC with indirect,Y addressing: 5 cycles, and one more when the
/// index carries the address onto the next page.
pub fn adc_indirect_y(registers: &mut Registers, mem: &mut Memory) -> (cycle: Cycle)
    ensures
        final(registers)@ == spec_adc(
            old(registers)@,
            mem::spec_read_indirect_y(old(mem)@, old(registers)@).0,
        ),
        final(mem)@ == old(mem)@,
        cycle.0 == if mem::spec_read_indirect_y(old(mem)@, old(registers)@).1 {
            6u32
        } else {
            5u32
        },
{
    let (val, page_crossed): (u8, bool) = mem::read_indirect_y(mem, registers);
    adc(registers, val);
    match page_crossed {
        true => Cycle(6),
        false => Cycle(5),
    }
}

/// Addition with carry: the accumulator becomes the sum of the old
/// accumulator, the operand and the carry flag, modulo 256. Carry is set
/// exactly when the sum exceeds 255. Overflow is set exactly when the old
/// accumulator and the operand agree in bit 7 and the new accumulator
/// differs from them there. Zero and sign follow the new accumulator. The
/// other flags and registers stay.
pub proof fn lemma_adc_result(r: RegisterState, val: u8)
    ensures
        spec_adc(r, val).a == (r.a + val + bit_value(r.carry)) % 256,
        spec_adc(r, val).carry == (r.a + val + bit_value(r.carry) > 255),
        spec_adc(r, val).overflow == (bit_of(r.a, 7) == bit_of(val, 7) && bit_of(
            spec_adc(r, val).a,
            7,
        ) != bit_of(r.a, 7)),
        spec_adc(r, val).zero == (spec_adc(r, val).a == 0),
        spec_adc(r, val).sign == bit_of(spec_adc(r, val).a, 7),
        spec_adc(r, val) == (RegisterState {
            a: spec_adc(r, val).a,
            carry: spec_adc(r, val).carry,
            overflow: spec_adc(r, val).overflow,
            zero: spec_adc(r, val).zero,
            sign: spec_adc(r, val).sign,
            ..r
        }),
{
    lemma_flags_of_a_byte(r.a);
    lemma_flags_of_a_byte(val);
    lemma_flags_of_a_byte(spec_adc(r, val).a);
}

} // verus!
