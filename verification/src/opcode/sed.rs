//! SED: set the decimal-mode flag.

use crate::cpu::{Memory, RegisterState, Registers};
use crate::opcode::Cycle;
use vstd::prelude::*;

verus! {

/// The registers after SED: the flag has its new value and nothing else
/// changes.
pub open spec fn spec_sed(r: RegisterState) -> RegisterState {
    RegisterState { decimal_mode: true, ..r }
}

/// Sets the decimal-mode flag.
#[inline]
pub fn sed(registers: &mut Registers)
    ensures
        final(registers)@ == spec_sed(old(registers)@),
{
    registers.set_decimal_mode_flag(true);
}

/// SED with implied addressing: 2 cycles.
pub fn sed_implied(registers: &mut Registers, _mem: &mut Memory) -> (cycle: Cycle)
    ensures
        final(registers)@ == spec_sed(old(registers)@),
        final(_mem)@ == old(_mem)@,
        cycle.0 == 2,
{
    sed(registers);
    Cycle(2)
}

/// SED twice in a row leaves the registers as SED once does.
pub proof fn lemma_sed_idempotent(r: RegisterState)
    ensures
        spec_sed(spec_sed(r)) == spec_sed(r),
{
}

} // verus!
