//! CLD: clear the decimal-mode flag.

use crate::cpu::{Memory, RegisterState, Registers};
use crate::opcode::Cycle;
use vstd::prelude::*;

verus! {

/// The registers after CLD: the flag has its new value and nothing else
/// changes.
pub open spec fn spec_cld(r: RegisterState) -> RegisterState {
    RegisterState { decimal_mode: false, ..r }
}

/// Clears the decimal-mode flag.
#[inline]
pub fn cld(registers: &mut Registers)
    ensures
        final(registers)@ == spec_cld(old(registers)@),
{
    registers.set_decimal_mode_flag(false);
}

/// CLD with implied addressing: 2 cycles.
pub fn cld_implied(registers: &mut Registers, _mem: &mut Memory) -> (cycle: Cycle)
    ensures
        final(registers)@ == spec_cld(old(registers)@),
        final(_mem)@ == old(_mem)@,
        cycle.0 == 2,
{
    cld(registers);
    Cycle(2)
}

/// CLD twice in a row leaves the registers as CLD once does.
pub proof fn lemma_cld_idempotent(r: RegisterState)
    ensures
        spec_cld(spec_cld(r)) == spec_cld(r),
{
}

} // verus!
