//! SEC: set the carry flag.

use crate::cpu::{Memory, RegisterState, Registers};
use crate::opcode::Cycle;
use vstd::prelude::*;

verus! {

/// The registers after SEC: the flag has its new value and nothing else
/// changes.
pub open spec fn spec_sec(r: RegisterState) -> RegisterState {
    RegisterState { carry: true, ..r }
}

/// Sets the carry flag.
#[inline]
pub fn sec(registers: &mut Registers)
    ensures
        final(registers)@ == spec_sec(old(registers)@),
{
    registers.set_carry_flag(true);
}

/// SEC with implied addressing: 2 cycles.
pub fn sec_implied(registers: &mut Registers, _mem: &mut Memory) -> (cycle: Cycle)
    ensures
        final(registers)@ == spec_sec(old(registers)@),
        final(_mem)@ == old(_mem)@,
        cycle.0 == 2,
{
    sec(registers);
    Cycle(2)
}

/// SEC twice in a row leaves the registers as SEC once does.
pub proof fn lemma_sec_idempotent(r: RegisterState)
    ensures
        spec_sec(spec_sec(r)) == spec_sec(r),
{
}

} // verus!
