//! CLV: clear the overflow flag.

use crate::cpu::{Memory, RegisterState, Registers};
use crate::opcode::Cycle;
use vstd::prelude::*;

verus! {

/// The registers after CLV: the flag has its new value and nothing else
/// changes.
pub open spec fn spec_clv(r: RegisterState) -> RegisterState {
    RegisterState { overflow: false, ..r }
}

/// Clears the overflow flag.
#[inline]
pub fn clv(registers: &mut Registers)
    ensures
        final(registers)@ == spec_clv(old(registers)@),
{
    registers.set_overflow_flag(false);
}

/// CLV with implied addressing: 2 cycles.
pub fn clv_implied(registers: &mut Registers, _mem: &mut Memory) -> (cycle: Cycle)
    ensures
        final(registers)@ == spec_clv(old(registers)@),
        final(_mem)@ == old(_mem)@,
        cycle.0 == 2,
{
    clv(registers);
    Cycle(2)
}

/// CLV twice in a row leaves the registers as CLV once does.
pub proof fn lemma_clv_idempotent(r: RegisterState)
    ensures
        spec_clv(spec_clv(r)) == spec_clv(r),
{
}

} // verus!
