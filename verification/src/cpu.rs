//! Register file, memory and the execution engine.

use crate::opcode::{Cycle, IllegalOpcode, OpCode, Outcome};
use vstd::prelude::*;
use vstd::std_specs::cmp::PartialEqSpecImpl;

verus! {

/// Number of bytes in the address space. Every `u16` addresses one of them.
pub const MEM_SIZE: usize = 0x10000;

/// Bit position of the carry flag in the status byte.
pub const CARRY_BIT: u8 = 0;

/// Bit position of the zero flag in the status byte.
pub const ZERO_BIT: u8 = 1;

/// Bit position of the interrupt-disable flag in the status byte.
pub const INTERRUPT_DISABLE_BIT: u8 = 2;

/// Bit position of the decimal-mode flag in the status byte.
pub const DECIMAL_MODE_BIT: u8 = 3;

/// Bit position of the break-command flag in the status byte.
pub const BREAK_COMMAND_BIT: u8 = 4;

/// Bit position of the unused bit of the status byte, which always reads 1.
pub const UNUSED_BIT: u8 = 5;

/// Bit position of the overflow flag in the status byte.
pub const OVERFLOW_BIT: u8 = 6;

/// Bit position of the sign (negative) flag in the status byte.
pub const SIGN_BIT: u8 = 7;

/// Mathematical model of the register file: the five registers and the
/// seven flags of the status byte, each flag as a boolean of its own.
pub struct RegisterState {
    pub a: u8,
    pub x: u8,
    pub y: u8,
    pub pc: u16,
    pub sp: u8,
    pub carry: bool,
    pub zero: bool,
    pub interrupt_disable: bool,
    pub decimal_mode: bool,
    pub break_command: bool,
    pub overflow: bool,
    pub sign: bool,
}

/// The value 1 if `flag` holds and 0 otherwise.
pub open spec fn bit_value(flag: bool) -> int {
    if flag {
        1
    } else {
        0
    }
}

impl RegisterState {
    /// The state after reset: every register zero and every flag clear.
    pub open spec fn reset() -> RegisterState {
        RegisterState {
            a: 0,
            x: 0,
            y: 0,
            pc: 0,
            sp: 0,
            carry: false,
            zero: false,
            interrupt_disable: false,
            decimal_mode: false,
            break_command: false,
            overflow: false,
            sign: false,
        }
    }

    /// The packed status byte: one bit per flag, and bit 5 always 1.
    pub open spec fn status(self) -> u8 {
        (bit_value(self.carry) + 2 * bit_value(self.zero) + 4 * bit_value(self.interrupt_disable)
            + 8 * bit_value(self.decimal_mode) + 16 * bit_value(self.break_command) + 32 + 64
            * bit_value(self.overflow) + 128 * bit_value(self.sign)) as u8
    }
}

/// Whether bit `n` of the byte `p` is set.
pub open spec fn bit_of(p: u8, n: u8) -> bool {
    (p >> n) & 1 == 1
}

/// Setting or clearing bit `n` of `p` changes that bit and no other.
proof fn lemma_bit_update(p: u8, n: u8, j: u8)
    by (bit_vector)
    requires
        n < 8,
        j < 8,
    ensures
        bit_of(p | (1u8 << n), j) == (j == n || bit_of(p, j)),
        bit_of(p & !(1u8 << n), j) == (j != n && bit_of(p, j)),
{
}

/// A byte is the sum of its bits, each weighted by its power of two.
proof fn lemma_byte_is_sum_of_bits(p: u8)
    by (bit_vector)
    ensures
        p == (if bit_of(p, 0) { 1int } else { 0 }) + (if bit_of(p, 1) { 2int } else { 0 })
            + (if bit_of(p, 2) { 4int } else { 0 }) + (if bit_of(p, 3) { 8int } else { 0 })
            + (if bit_of(p, 4) { 16int } else { 0 }) + (if bit_of(p, 5) { 32int } else { 0 })
            + (if bit_of(p, 6) { 64int } else { 0 }) + (if bit_of(p, 7) { 128int } else { 0 }),
{
}

/// In the reset value of the status byte only bit 5 is set.
proof fn lemma_reset_bits(n: u8)
    by (bit_vector)
    requires
        n < 8,
    ensures
        bit_of(0b00100000u8, n) == (n == 5),
{
}

/// The packed status byte: one bit for each flag, and the unused bit 5. The
/// byte is reached through the register file only, whose operations set and
/// clear single flags, so bit 5 is set in every value of this type.
#[derive(Debug)]
pub struct P(u8);

impl Clone for P {
    fn clone(&self) -> (r: P)
        ensures
            r == *self,
    {
        proof {
            use_type_invariant(self);
        }
        P(self.0)
    }
}

impl P {
    #[verifier::type_invariant]
    spec fn unused_bit_is_set(&self) -> bool {
        self.bit(UNUSED_BIT)
    }

    /// Whether bit `n` of the status byte is set.
    pub closed spec fn bit(&self, n: u8) -> bool {
        bit_of(self.0, n)
    }

    fn new() -> (p: P)
        ensures
            forall|n: u8| n < 8 ==> #[trigger] p.bit(n) == (n == UNUSED_BIT),
    {
        proof {
            assert forall|n: u8| n < 8 implies #[trigger] bit_of(0b00100000u8, n) == (n == 5) by {
                lemma_reset_bits(n);
            }
        }
        P(0b00100000)
    }

    fn get(&self) -> (r: u8)
        ensures
            self.bit(UNUSED_BIT),
            r == bit_value(self.bit(0)) + 2 * bit_value(self.bit(1)) + 4 * bit_value(self.bit(2))
                + 8 * bit_value(self.bit(3)) + 16 * bit_value(self.bit(4)) + 32 * bit_value(
                self.bit(5),
            ) + 64 * bit_value(self.bit(6)) + 128 * bit_value(self.bit(7)),
    {
        proof {
            use_type_invariant(self);
            lemma_byte_is_sum_of_bits(self.0);
        }
        self.0
    }

    fn test(&self, n: u8) -> (r: bool)
        requires
            n < 8,
        ensures
            r == self.bit(n),
    {
        ((self.0 >> n) & 1) == 1
    }

    fn assign(&mut self, n: u8, flag: bool)
        requires
            n < 8,
            n != UNUSED_BIT,
        ensures
            forall|j: u8|
                j < 8 ==> #[trigger] final(self).bit(j) == (if j == n {
                    flag
                } else {
                    old(self).bit(j)
                }),
    {
        let mask: u8 = 1u8 << n;
        let updated: u8 = if flag {
            self.0 | mask
        } else {
            self.0 & !mask
        };
        proof {
            use_type_invariant(&*self);
            assert forall|j: u8| j < 8 implies #[trigger] bit_of(updated, j) == (if j == n {
                flag
            } else {
                bit_of(self.0, j)
            }) by {
                lemma_bit_update(self.0, n, j);
            }
        }
        self.0 = updated;
    }
}

/// The register file: accumulator, index registers, program counter, stack
/// pointer and the status byte. Its model is a [`RegisterState`].
#[derive(Debug)]
pub struct Registers {
    pub a: u8,
    pub x: u8,
    pub y: u8,
    pub pc: u16,
    pub sp: u8,
    pub p: P,
}

impl View for Registers {
    type V = RegisterState;

    open spec fn view(&self) -> RegisterState {
        RegisterState {
            a: self.a,
            x: self.x,
            y: self.y,
            pc: self.pc,
            sp: self.sp,
            carry: self.p.bit(CARRY_BIT),
            zero: self.p.bit(ZERO_BIT),
            interrupt_disable: self.p.bit(INTERRUPT_DISABLE_BIT),
            decimal_mode: self.p.bit(DECIMAL_MODE_BIT),
            break_command: self.p.bit(BREAK_COMMAND_BIT),
            overflow: self.p.bit(OVERFLOW_BIT),
            sign: self.p.bit(SIGN_BIT),
        }
    }
}

impl Clone for Registers {
    fn clone(&self) -> (r: Registers)
        ensures
            r == *self,
    {
        Registers {
            a: self.a,
            x: self.x,
            y: self.y,
            pc: self.pc,
            sp: self.sp,
            p: self.p.clone(),
        }
    }
}

impl PartialEq for Registers {
    /// Two register files are equal when every register and every flag is.
    fn eq(&self, other: &Registers) -> (r: bool) {
        let own: u8 = self.p.get();
        let others: u8 = other.p.get();
        self.a == other.a && self.x == other.x && self.y == other.y && self.pc == other.pc
            && self.sp == other.sp && own == others
    }
}

impl PartialEqSpecImpl for Registers {
    open spec fn obeys_eq_spec() -> bool {
        true
    }

    open spec fn eq_spec(&self, other: &Registers) -> bool {
        self@ == other@
    }
}

impl Registers {
    /// The register file after reset: every register is zero and every flag
    /// is clear, so that of the status byte only the unused bit 5 is set.
    pub fn new() -> (r: Registers)
        ensures
            r@ == RegisterState::reset(),
            r.p.bit(UNUSED_BIT),
            r@.status() == 0b00100000,
    {
        Registers { a: 0x00, x: 0x00, y: 0x00, p: P::new(), pc: 0x00, sp: 0x00 }
    }

    /// The packed status byte.
    #[inline]
    pub fn p(&self) -> (status: u8)
        ensures
            status == self@.status(),
    {
        self.p.get()
    }

    /// Sets the carry flag to `flag` and changes nothing else.
    #[inline]
    pub fn set_carry_flag(&mut self, flag: bool)
        ensures
            final(self)@ == (RegisterState { carry: flag, ..old(self)@ }),
    {
        self.p.assign(CARRY_BIT, flag);
    }

    /// Reads the carry flag.
    #[inline]
    pub fn carry_flag(&self) -> (flag: bool)
        ensures
            flag == self@.carry,
    {
        self.p.test(CARRY_BIT)
    }

    /// Sets the zero flag to `flag` and changes nothing else.
    #[inline]
    pub fn set_zero_flag(&mut self, flag: bool)
        ensures
            final(self)@ == (RegisterState { zero: flag, ..old(self)@ }),
    {
        self.p.assign(ZERO_BIT, flag);
    }

    /// Reads the zero flag.
    #[inline]
    pub fn zero_flag(&self) -> (flag: bool)
        ensures
            flag == self@.zero,
    {
        self.p.test(ZERO_BIT)
    }

    /// Sets the interrupt-disable flag to `flag` and changes nothing else.
    #[inline]
    pub fn set_interrupt_disable_flag(&mut self, flag: bool)
        ensures
            final(self)@ == (RegisterState { interrupt_disable: flag, ..old(self)@ }),
    {
        self.p.assign(INTERRUPT_DISABLE_BIT, flag);
    }

    /// Reads the interrupt-disable flag.
    #[inline]
    pub fn interrupt_disable_flag(&self) -> (flag: bool)
        ensures
            flag == self@.interrupt_disable,
    {
        self.p.test(INTERRUPT_DISABLE_BIT)
    }

    /// Sets the decimal-mode flag to `flag` and changes nothing else.
    #[inline]
    pub fn set_decimal_mode_flag(&mut self, flag: bool)
        ensures
            final(self)@ == (RegisterState { decimal_mode: flag, ..old(self)@ }),
    {
        self.p.assign(DECIMAL_MODE_BIT, flag);
    }

    /// Reads the decimal-mode flag.
    #[inline]
    pub fn decimal_mode_flag(&self) -> (flag: bool)
        ensures
            flag == self@.decimal_mode,
    {
        self.p.test(DECIMAL_MODE_BIT)
    }

    /// Sets the break-command flag to `flag` and changes nothing else.
    #[inline]
    pub fn set_break_command_flag(&mut self, flag: bool)
        ensures
            final(self)@ == (RegisterState { break_command: flag, ..old(self)@ }),
    {
        self.p.assign(BREAK_COMMAND_BIT, flag);
    }

    /// Reads the break-command flag.
    #[inline]
    pub fn break_command_flag(&self) -> (flag: bool)
        ensures
            flag == self@.break_command,
    {
        self.p.test(BREAK_COMMAND_BIT)
    }

    /// Sets the overflow flag to `flag` and changes nothing else.
    #[inline]
    pub fn set_overflow_flag(&mut self, flag: bool)
        ensures
            final(self)@ == (RegisterState { overflow: flag, ..old(self)@ }),
    {
        self.p.assign(OVERFLOW_BIT, flag);
    }

    /// Reads the overflow flag.
    #[inline]
    pub fn overflow_flag(&self) -> (flag: bool)
        ensures
            flag == self@.overflow,
    {
        self.p.test(OVERFLOW_BIT)
    }

    /// Sets the sign flag to `flag` and changes nothing else.
    #[inline]
    pub fn set_sign_flag(&mut self, flag: bool)
        ensures
            final(self)@ == (RegisterState { sign: flag, ..old(self)@ }),
    {
        self.p.assign(SIGN_BIT, flag);
    }

    /// Reads the sign flag.
    #[inline]
    pub fn sign_flag(&self) -> (flag: bool)
        ensures
            flag == self@.sign,
    {
        self.p.test(SIGN_BIT)
    }
}

/// The 64 KiB address space, one byte per address.
#[derive(Debug)]
pub struct Memory {
    raw_memory: [u8; MEM_SIZE],
}

impl Clone for Memory {
    fn clone(&self) -> (m: Memory)
        ensures
            m == *self,
    {
        Memory { raw_memory: self.raw_memory }
    }
}

impl PartialEq for Memory {
    /// Two memories are equal when they hold the same byte at every address.
    fn eq(&self, other: &Memory) -> (r: bool) {
        let mut addr: usize = 0;
        while addr < MEM_SIZE
            invariant
                addr <= MEM_SIZE,
                forall|i: int| 0 <= i < addr ==> self@[i] == other@[i],
            decreases MEM_SIZE - addr,
        {
            if self.raw_memory[addr] != other.raw_memory[addr] {
                return false;
            }
            addr += 1;
        }
        assert(self@ =~= other@);
        true
    }
}

impl PartialEqSpecImpl for Memory {
    open spec fn obeys_eq_spec() -> bool {
        true
    }

    open spec fn eq_spec(&self, other: &Memory) -> bool {
        self@ == other@
    }
}

impl View for Memory {
    type V = Seq<u8>;

    closed spec fn view(&self) -> Seq<u8> {
        self.raw_memory@
    }
}

impl Memory {
    /// The view of a memory has one entry for each 16-bit address.
    pub proof fn lemma_len(&self)
        ensures
            self@.len() == MEM_SIZE,
    {
    }

    /// A memory that holds zero at every address.
    pub fn new() -> (m: Memory)
        ensures
            m@ == Seq::new(MEM_SIZE as nat, |i: int| 0u8),
    {
        Memory { raw_memory: [0x00; MEM_SIZE] }
    }

    /// The byte at `addr`.
    pub fn read(&self, addr: u16) -> (val: u8)
        ensures
            val == self@[addr as int],
    {
        self.raw_memory[addr as usize]
    }

    /// Stores `val` at `addr` and leaves every other byte as it is.
    pub fn write(&mut self, addr: u16, val: u8)
        ensures
            final(self)@ == old(self)@.update(addr as int, val),
            final(self)@[addr as int] == val,
    {
        self.raw_memory[addr as usize] = val;
    }
}

/// A byte written to an address is the byte read back from it, and the write
/// leaves the byte at every other address unchanged.
pub proof fn lemma_write_then_read(mem: Memory, addr: u16, val: u8, other: u16)
    ensures
        mem@.update(addr as int, val)[addr as int] == val,
        other != addr ==> mem@.update(addr as int, val)[other as int] == mem@[other as int],
        mem@.update(addr as int, val).len() == MEM_SIZE,
{
    mem.lemma_len();
}

/// The address `operands_num + 1` bytes after `pc`, wrapping around the
/// address space.
pub open spec fn spec_advance(pc: u16, operands_num: u8) -> u16 {
    ((pc + 1 + operands_num) % 0x10000) as u16
}

fn advance(pc: u16, operands_num: u8) -> (next: u16)
    ensures
        next == spec_advance(pc, operands_num),
{
    pc.wrapping_add(1).wrapping_add(operands_num as u16)
}

/// The running total of cycles after `cycles` more: the total counts modulo
/// 2^32.
pub open spec fn spec_accumulate(total: u32, cycles: u32) -> u32 {
    ((total + cycles) % 0x1_0000_0000) as u32
}

fn accumulate(total: u32, cycles: u32) -> (sum: u32)
    ensures
        sum == spec_accumulate(total, cycles),
{
    total.wrapping_add(cycles)
}

/// The processor: its memory, its registers and the running total of the
/// cycles that its instructions took.
pub struct RP2A03 {
    pub memory: Memory,
    pub registers: Registers,
    pub current_cycles: u32,
}

impl RP2A03 {
    /// A processor after reset: memory all zero, registers reset, no cycle
    /// elapsed.
    pub fn new() -> (cpu: RP2A03)
        ensures
            cpu.memory@ == Seq::new(MEM_SIZE as nat, |i: int| 0u8),
            cpu.registers@ == RegisterState::reset(),
            cpu.current_cycles == 0,
    {
        RP2A03 { memory: Memory::new(), registers: Registers::new(), current_cycles: 0 }
    }

    /// The byte that the program counter points at.
    pub open spec fn spec_fetch(&self) -> u8 {
        self.memory@[self.registers.pc as int]
    }

    /// Registers, memory and cycle count after `opcode` has run from this
    /// state and the program counter has moved on by the length of the
    /// instruction: one byte for the opcode and one for each operand byte.
    /// The addition wraps around the address space. A taken branch has
    /// added its displacement to the address of its own opcode, so the
    /// program counter ends at the address after the branch plus the
    /// displacement.
    pub open spec fn spec_next(&self, opcode: OpCode) -> Outcome {
        let outcome = opcode.spec_run(self.registers@, self.memory@);
        let operands_num = opcode.spec_info().mode.spec_operands_num();
        Outcome {
            registers: RegisterState {
                pc: spec_advance(outcome.registers.pc, operands_num),
                ..outcome.registers
            },
            ..outcome
        }
    }

    /// Whether `after` and `cycle` are what running `opcode` from this state
    /// gives. The running total of cycles counts modulo 2^32.
    pub open spec fn spec_executed(&self, opcode: OpCode, after: &RP2A03, cycle: Cycle) -> bool {
        &&& after.registers@ == self.spec_next(opcode).registers
        &&& after.memory@ == self.spec_next(opcode).memory
        &&& cycle.0 == self.spec_next(opcode).cycles
        &&& after.current_cycles == spec_accumulate(self.current_cycles, cycle.0)
    }

    fn perform(&mut self, opcode: OpCode) -> (cycle: Cycle)
        ensures
            old(self).spec_executed(opcode, final(self), cycle),
    {
        let Cycle(cycles_num) = opcode.run(&mut self.registers, &mut self.memory);
        self.registers.pc = advance(self.registers.pc, opcode.operands_num());
        self.current_cycles = accumulate(self.current_cycles, cycles_num);
        Cycle(cycles_num)
    }

    /// Executes the instruction at the program counter: fetches the opcode
    /// byte, decodes it, runs the instruction, moves the program counter
    /// past it and adds the cycles it took to the running total. A byte that
    /// encodes no instruction is reported as `IllegalOpcode` and leaves the
    /// processor as it was.
    pub fn step(&mut self) -> (r: Result<Cycle, IllegalOpcode>)
        ensures
            match OpCode::spec_from_byte(old(self).spec_fetch()) {
                Some(opcode) => r is Ok && old(self).spec_executed(opcode, final(self), r->Ok_0),
                None => r == Err::<Cycle, IllegalOpcode>(IllegalOpcode(old(self).spec_fetch()))
                    && *final(self) == *old(self),
            },
    {
        let pc: u16 = self.registers.pc;
        match OpCode::from_byte(self.memory.read(pc)) {
            Ok(opcode) => Ok(self.perform(opcode)),
            Err(illegal) => Err(illegal),
        }
    }

    /// Executes the instruction at the program counter, which must point at
    /// a byte that encodes one, and returns the cycles it took.
    pub fn execute(&mut self) -> (cycle: Cycle)
        requires
            OpCode::spec_from_byte(old(self).spec_fetch()) is Some,
        ensures
            old(self).spec_executed(
                OpCode::spec_from_byte(old(self).spec_fetch())->Some_0,
                final(self),
                cycle,
            ),
    {
        let pc: u16 = self.registers.pc;
        match OpCode::from_byte(self.memory.read(pc)) {
            Ok(opcode) => self.perform(opcode),
            Err(_) => vstd::pervasive::unreached(),
        }
    }
}

} // verus!
