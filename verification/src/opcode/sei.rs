//! SEI: set the interrupt-disable flag.

use crate::cpu::{Memory, RegisterState, Registers};
use crate::opcode::Cycle;
use vstd::prelude::*;

verus! {

/// The registers after SEI: the flag has its new value and nothing else
/// changes.
pub open spec fn spec_sei(r: RegisterState) -> RegisterState {
    RegisterState { interrupt_disable: true, ..r }
}

/// Sets the interrupt-disable flag.
#[inline]
pub fn sei(registers: &mut Registers)
    ensures
        final(registers)@ == spec_sei(old(registers)@),
{
    registers.set_interrupt_disable_flag(true);
}

/// SEI with implied addressing: 2 cycles.
pub fn sei_implied(registers: &mut Registers, _mem: &mut Memory) -> (cycle: Cycle)
    ensures
        final(registers)@ == spec_sei(old(registers)@),
        final(_mem)@ == old(_mem)@,
        cycle.0 == 2,
{
    sei(registers);
    Cycle(2)
}

/// SEI twice in a row leaves the registers as SEI once does.
pub proof fn lemma_sei_idempotent(r: RegisterState)
    ensures
        spec_sei(spec_sei(r)) == spec_sei(r),
{
}

} // verus!
