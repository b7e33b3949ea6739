//! CLC: clear the carry flag.

use crate::cpu::{Memory, RegisterState, Registers};
use crate::opcode::Cycle;
use vstd::prelude::*;

verus! {

/// The registers after CLC: the flag has its new value and nothing else
/// changes.
pub open spec fn spec_clc(r: RegisterState) -> RegisterState {
    RegisterState { carry: false, ..r }
}

/// Clears the carry flag.
#[inline]
pub fn clc(registers: &mut Registers)
    ensures
        final(registers)@ == spec_clc(old(registers)@),
{
    registers.set_carry_flag(false);
}

/// CLC with implied addressing: 2 cycles.
pub fn clc_implied(registers: &mut Registers, _mem: &mut Memory) -> (cycle: Cycle)
    ensures
        final(registers)@ == spec_clc(old(registers)@),
        final(_mem)@ == old(_mem)@,
        cycle.0 == 2,
{
    clc(registers);
    Cycle(2)
}

/// CLC twice in a row leaves the registers as CLC once does.
pub proof fn lemma_clc_idempotent(r: RegisterState)
    ensures
        spec_clc(spec_clc(r)) == spec_clc(r),
{
}

} // verus!
