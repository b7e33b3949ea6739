//! The status-flag rules and the arithmetic of relative branches.

use crate::cpu::{bit_of, RegisterState, Registers};
use vstd::prelude::*;

pub mod mem;

verus! {

/// Zero rule: the low eight bits of `val` are all clear.
pub open spec fn spec_is_zero(val: int) -> bool {
    val % 0x100 == 0
}

/// Sign rule: bit 7 of `val` is set.
pub open spec fn spec_is_sign(val: int) -> bool {
    val % 0x100 >= 0x80
}

/// Carry rule of addition and shifting: `val` does not fit in eight bits.
pub open spec fn spec_is_carry(val: int) -> bool {
    val > 0xFF
}

/// Overflow rule of addition: both operands have the same sign and the
/// result, cut to eight bits, has the other one.
pub open spec fn spec_is_overflow(operand_a: u8, operand_b: u8, result: int) -> bool {
    (operand_a >= 0x80) == (operand_b >= 0x80) && (result % 0x100 >= 0x80) != (operand_a >= 0x80)
}

/// On a byte the sign rule reads bit 7, and the zero rule asks whether the
/// byte is zero.
pub proof fn lemma_flags_of_a_byte(val: u8)
    ensures
        spec_is_sign(val as int) == bit_of(val, 7),
        spec_is_zero(val as int) == (val == 0),
{
    assert((val >= 0x80) == ((val >> 7u8) & 1 == 1)) by (bit_vector);
}

/// The registers with the zero flag set by the zero rule.
pub open spec fn spec_set_zero(r: RegisterState, val: int) -> RegisterState {
    RegisterState { zero: spec_is_zero(val), ..r }
}

/// The registers with the sign flag set by the sign rule.
pub open spec fn spec_set_sign(r: RegisterState, val: int) -> RegisterState {
    RegisterState { sign: spec_is_sign(val), ..r }
}

/// The registers with the overflow flag set by the overflow rule of
/// addition.
pub open spec fn spec_set_overflow(
    r: RegisterState,
    operand_a: u8,
    operand_b: u8,
    result: int,
) -> RegisterState {
    RegisterState { overflow: spec_is_overflow(operand_a, operand_b, result), ..r }
}

/// The registers with the carry flag set by the carry rule.
pub open spec fn spec_set_carry(r: RegisterState, val: int) -> RegisterState {
    RegisterState { carry: spec_is_carry(val), ..r }
}

/// Setting a flag twice from the same values leaves the registers as
/// setting it once does.
pub proof fn lemma_flag_setters_are_idempotent(
    r: RegisterState,
    val: int,
    operand_a: u8,
    operand_b: u8,
)
    ensures
        spec_set_zero(spec_set_zero(r, val), val) == spec_set_zero(r, val),
        spec_set_sign(spec_set_sign(r, val), val) == spec_set_sign(r, val),
        spec_set_carry(spec_set_carry(r, val), val) == spec_set_carry(r, val),
        spec_set_overflow(
            spec_set_overflow(r, operand_a, operand_b, val),
            operand_a,
            operand_b,
            val,
        ) == spec_set_overflow(r, operand_a, operand_b, val),
{
}

/// The flag setters are independent: each changes its own flag and none of
/// the others, so two of them may be applied in either order.
pub proof fn lemma_flag_setters_are_independent(
    r: RegisterState,
    val: int,
    other: int,
    operand_a: u8,
    operand_b: u8,
)
    ensures
        spec_set_zero(r, val) == (RegisterState { zero: spec_set_zero(r, val).zero, ..r }),
        spec_set_sign(r, val) == (RegisterState { sign: spec_set_sign(r, val).sign, ..r }),
        spec_set_carry(r, val) == (RegisterState { carry: spec_set_carry(r, val).carry, ..r }),
        spec_set_overflow(r, operand_a, operand_b, val) == (RegisterState {
            overflow: spec_set_overflow(r, operand_a, operand_b, val).overflow,
            ..r
        }),
        spec_set_zero(spec_set_sign(r, val), other) == spec_set_sign(spec_set_zero(r, other), val),
        spec_set_zero(spec_set_carry(r, val), other) == spec_set_carry(
            spec_set_zero(r, other),
            val,
        ),
        spec_set_sign(spec_set_carry(r, val), other) == spec_set_carry(
            spec_set_sign(r, other),
            val,
        ),
        spec_set_overflow(spec_set_zero(r, val), operand_a, operand_b, other) == spec_set_zero(
            spec_set_overflow(r, operand_a, operand_b, other),
            val,
        ),
        spec_set_overflow(spec_set_sign(r, val), operand_a, operand_b, other) == spec_set_sign(
            spec_set_overflow(r, operand_a, operand_b, other),
            val,
        ),
        spec_set_overflow(spec_set_carry(r, val), operand_a, operand_b, other) == spec_set_carry(
            spec_set_overflow(r, operand_a, operand_b, other),
            val,
        ),
{
}

/// Sets the zero flag by the zero rule and changes nothing else.
#[inline]
pub fn set_zero(registers: &mut Registers, val: u16)
    ensures
        final(registers)@ == spec_set_zero(old(registers)@, val as int),
{
    assert((val & 0xFF == 0x00) == (val % 0x100 == 0)) by (bit_vector);
    registers.set_zero_flag(val & 0xFF == 0x00);
}

/// Sets the sign flag by the sign rule and changes nothing else.
#[inline]
pub fn set_sign(registers: &mut Registers, val: u16)
    ensures
        final(registers)@ == spec_set_sign(old(registers)@, val as int),
{
    assert(((val >> 7) & 1 == 1) == (val % 0x100 >= 0x80)) by (bit_vector);
    registers.set_sign_flag((val >> 7) & 1 == 1);
}

/// Sets the overflow flag by the overflow rule of addition and changes
/// nothing else.
#[inline]
pub fn set_overflow(registers: &mut Registers, operand_a: u8, operand_b: u8, result: u16)
    ensures
        final(registers)@ == spec_set_overflow(
            old(registers)@,
            operand_a,
            operand_b,
            result as int,
        ),
{
    assert((((operand_a ^ operand_b) & 0x80) == 0x00) == ((operand_a >= 0x80) == (operand_b
        >= 0x80))) by (bit_vector);
    assert((((operand_a as u16 ^ result) & 0x80) > 0x00) == ((result % 0x100 >= 0x80) != (operand_a
        >= 0x80))) by (bit_vector);
    let flag = ((operand_a ^ operand_b) & 0x80) == 0x00 && ((operand_a as u16 ^ result) & 0x80)
        > 0x00;
    registers.set_overflow_flag(flag);
}

/// Sets the carry flag by the carry rule and changes nothing else.
#[inline]
pub fn set_carry(registers: &mut Registers, val: u16)
    ensures
        final(registers)@ == spec_set_carry(old(registers)@, val as int),
{
    registers.set_carry_flag(val > 0xFF);
}

/// Whether two addresses lie on different 256-byte pages.
pub open spec fn spec_new_page(old_pc: u16, new_pc: u16) -> bool {
    old_pc / 0x100 != new_pc / 0x100
}

/// The operand byte of a branch read as a two's-complement displacement.
pub open spec fn spec_displacement(val: u8) -> int {
    if val < 0x80 {
        val as int
    } else {
        val - 0x100
    }
}

/// The target of a relative branch from `pc`, and whether it lies on another
/// page than `pc`. The sum wraps around the 16-bit address space.
pub open spec fn spec_rel_addr(pc: u16, val: u8) -> (u16, bool) {
    let new_pc = ((pc + spec_displacement(val)) % 0x10000) as u16;
    (new_pc, spec_new_page(pc, new_pc))
}

/// Registers and cycle count after a conditional branch by `offset`. A
/// branch that is not taken leaves the registers alone and costs 2 cycles. A
/// taken branch moves the program counter to the target and costs 3 cycles,
/// or 4 when the target lies on another page.
pub open spec fn spec_branch(r: RegisterState, offset: u8, taken: bool) -> (RegisterState, u32) {
    if taken {
        (
            RegisterState { pc: spec_rel_addr(r.pc, offset).0, ..r },
            if spec_rel_addr(r.pc, offset).1 {
                4u32
            } else {
                3u32
            },
        )
    } else {
        (r, 2u32)
    }
}

/// The cost of a branch: 2 cycles and an untouched program counter when it
/// is not taken; 3 cycles when it is taken and the target lies on the page
/// of the branch; 4 when the target lies on another page. A taken branch
/// changes the program counter and nothing else.
pub proof fn lemma_branch_cycles(r: RegisterState, offset: u8, taken: bool)
    ensures
        !taken ==> spec_branch(r, offset, taken) == (r, 2u32),
        taken ==> spec_branch(r, offset, taken).0 == (RegisterState {
            pc: spec_rel_addr(r.pc, offset).0,
            ..r
        }),
        taken && spec_rel_addr(r.pc, offset).0 / 0x100 == r.pc / 0x100 ==> spec_branch(
            r,
            offset,
            taken,
        ).1 == 3,
        taken && spec_rel_addr(r.pc, offset).0 / 0x100 != r.pc / 0x100 ==> spec_branch(
            r,
            offset,
            taken,
        ).1 == 4,
{
}

/// A displacement is a number from -128 to 127, and the target of a branch
/// is that far from the branch, modulo the size of the address space.
pub proof fn lemma_displacement_range(pc: u16, val: u8)
    ensures
        -128 <= spec_displacement(val) <= 127,
        (spec_displacement(val) - val) % 0x100 == 0,
        (spec_rel_addr(pc, val).0 - pc - spec_displacement(val)) % 0x10000 == 0,
{
}

/// Whether two values of the program counter lie on different pages.
#[inline]
fn new_page(old_pc: u16, new_pc: u16) -> (crossed: bool)
    ensures
        crossed == spec_new_page(old_pc, new_pc),
{
    assert(((old_pc & 0xFF00) != (new_pc & 0xFF00)) == (old_pc / 0x100 != new_pc / 0x100))
        by (bit_vector);
    (old_pc & 0xFF00) != (new_pc & 0xFF00)
}

/// Adds the signed displacement `val` to `pc`. Returns the new program
/// counter and whether a page boundary lies between the two.
#[inline]
pub fn rel_addr(pc: u16, val: u8) -> (r: (u16, bool))
    ensures
        r == spec_rel_addr(pc, val),
{
    assert(((val & 0b10000000) > 0) == (val >= 0x80)) by (bit_vector);
    let negative = (val & 0b10000000) > 0;
    let new_pc: u16 = if negative {
        pc.wrapping_sub(0x100 - val as u16)
    } else {
        pc.wrapping_add(val as u16)
    };
    (new_pc, new_page(pc, new_pc))
}

} // verus!
