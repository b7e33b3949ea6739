//! NOP: no operation.

use crate::cpu::{Memory, Registers};
use crate::opcode::Cycle;
use vstd::prelude::*;

verus! {

/// Changes neither registers nor memory: 2 cycles.
pub fn nop(_registers: &mut Registers, _mem: &mut Memory) -> (cycle: Cycle)
    ensures
        *final(_registers) == *old(_registers),
        *final(_mem) == *old(_mem),
        cycle.0 == 2,
{
    Cycle(2)
}

} // verus!
