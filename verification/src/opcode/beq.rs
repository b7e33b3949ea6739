//! BEQ: branch if the zero flag is set.

use crate::cpu::{Memory, Registers};
use crate::opcode::utils;
use crate::opcode::utils::{mem, spec_branch};
use crate::opcode::Cycle;
use vstd::prelude::*;

verus! {

/// Branches by the displacement `offset` if the zero flag is set.
/// The branch costs 2 cycles when it is not taken, 3 when it is, and 4 when
/// the target lies on another page.
#[inline]
pub fn beq(registers: &mut Registers, offset: u8) -> (cycle: Cycle)
    ensures
        (final(registers)@, cycle.0) == spec_branch(
            old(registers)@,
            offset,
            old(registers)@.zero,
        ),
{
    let (new_pc, new_page): (u16, bool) = utils::rel_addr(registers.pc, offset);
    match registers.zero_flag() {
        true => {
            registers.pc = new_pc;
            if new_page {
                Cycle(4)
            } else {
                Cycle(3)
            }
        },
        false => Cycle(2),
    }
}

/// BEQ with relative addressing.
pub fn beq_relative(registers: &mut Registers, mem: &mut Memory) -> (cycle: Cycle)
    ensures
        (final(registers)@, cycle.0) == spec_branch(
            old(registers)@,
            mem::spec_read_rel(old(mem)@, old(registers)@),
            old(registers)@.zero,
        ),
        final(mem)@ == old(mem)@,
{
    let val: u8 = mem::read_rel(mem, registers);
    beq(registers, val)
}

} // verus!
