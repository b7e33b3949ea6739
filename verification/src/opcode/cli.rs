//! CLI: clear the interrupt-disable flag.

use crate::cpu::{Memory, RegisterState, Registers};
use crate::opcode::Cycle;
use vstd::prelude::*;

verus! {

/// The registers after CLI: the flag has its new value and nothing else
/// changes.
pub open spec fn spec_cli(r: RegisterState) -> RegisterState {
    RegisterState { interrupt_disable: false, ..r }
}

/// Clears the interrupt-disable flag.
#[inline]
pub fn cli(registers: &mut Registers)
    ensures
        final(registers)@ == spec_cli(old(registers)@),
{
    registers.set_interrupt_disable_flag(false);
}

/// CLI with implied addressing: 2 cycles.
pub fn cli_implied(registers: &mut Registers, _mem: &mut Memory) -> (cycle: Cycle)
    ensures
        final(registers)@ == spec_cli(old(registers)@),
        final(_mem)@ == old(_mem)@,
        cycle.0 == 2,
{
    cli(registers);
    Cycle(2)
}

/// CLI twice in a row leaves the registers as CLI once does.
pub proof fn lemma_cli_idempotent(r: RegisterState)
    ensures
        spec_cli(spec_cli(r)) == spec_cli(r),
{
}

} // verus!
