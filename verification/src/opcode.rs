//! The instruction set: one module per mnemonic, and the opcode table that
//! dispatches to them.

use crate::cpu::{Memory, RegisterState, Registers};
use crate::opcode::utils::mem;
use crate::opcode::utils::spec_branch;
use vstd::prelude::*;

pub mod adc;
pub mod and;
pub mod asl;
pub mod bcc;
pub mod bcs;
pub mod beq;
pub mod bit;
pub mod bmi;
pub mod bne;
pub mod bpl;
pub mod bvc;
pub mod bvs;
pub mod clc;
pub mod cld;
pub mod cli;
pub mod clv;
pub mod lda;
pub mod ldx;
pub mod ldy;
pub mod nop;
pub mod sec;
pub mod sed;
pub mod sei;
pub mod utils;

verus! {

/// A number of elapsed clock cycles.
#[derive(Debug, Clone, Copy, PartialEq, Eq, Structural)]
pub struct Cycle(pub u32);

/// The outcome of decoding a byte that the opcode table assigns to no
/// instruction. It carries the byte.
#[derive(Debug, Clone, Copy, PartialEq, Eq, Structural)]
pub struct IllegalOpcode(pub u8);

/// How an instruction finds its operand.
#[derive(Debug, Clone, Copy, PartialEq, Eq, Structural)]
pub enum AddressingMode {
    /// No operand.
    Implied,
    /// The operand is the accumulator.
    Accumulator,
    /// The operand is the byte after the opcode.
    Immediate,
    /// The byte after the opcode is an address in page zero.
    ZeroPage,
    /// Zero page, with X added to the address modulo 256.
    ZeroPageX,
    /// Zero page, with Y added to the address modulo 256.
    ZeroPageY,
    /// The two bytes after the opcode are a little-endian address.
    Absolute,
    /// Absolute, with X added to the address.
    AbsoluteX,
    /// Absolute, with Y added to the address.
    AbsoluteY,
    /// The byte after the opcode is a signed displacement of the program
    /// counter.
    Relative,
    /// The byte after the opcode plus X points, in page zero, at the
    /// address.
    IndirectX,
    /// The byte after the opcode points, in page zero, at an address to
    /// which Y is added.
    IndirectY,
}

impl AddressingMode {
    /// Number of operand bytes that follow the opcode.
    pub open spec fn spec_operands_num(self) -> u8 {
        match self {
            AddressingMode::Implied | AddressingMode::Accumulator => 0,
            AddressingMode::Absolute | AddressingMode::AbsoluteX | AddressingMode::AbsoluteY => 2,
            _ => 1,
        }
    }

    /// Number of operand bytes that follow the opcode.
    pub fn operands_num(&self) -> (n: u8)
        ensures
            n == self.spec_operands_num(),
    {
        match self {
            AddressingMode::Implied | AddressingMode::Accumulator => 0,
            AddressingMode::Absolute | AddressingMode::AbsoluteX | AddressingMode::AbsoluteY => 2,
            _ => 1,
        }
    }

    /// The operand value that the mode resolves to and whether resolving it
    /// crossed a page. Implied addressing has no operand: the value is 0.
    pub open spec fn spec_read(self, memory: Seq<u8>, r: RegisterState) -> (u8, bool) {
        match self {
            AddressingMode::Implied => (0, false),
            AddressingMode::Accumulator => (r.a, false),
            AddressingMode::Immediate => (mem::spec_read_imm(memory, r), false),
            AddressingMode::ZeroPage => (mem::spec_read_zero_page(memory, r), false),
            AddressingMode::ZeroPageX => (mem::spec_read_zero_page_x(memory, r), false),
            AddressingMode::ZeroPageY => (mem::spec_read_zero_page_y(memory, r), false),
            AddressingMode::Absolute => (mem::spec_read_abs(memory, r), false),
            AddressingMode::AbsoluteX => mem::spec_read_abs_x(memory, r),
            AddressingMode::AbsoluteY => mem::spec_read_abs_y(memory, r),
            AddressingMode::Relative => (mem::spec_read_rel(memory, r), false),
            AddressingMode::IndirectX => (mem::spec_read_indirect_x(memory, r), false),
            AddressingMode::IndirectY => mem::spec_read_indirect_y(memory, r),
        }
    }

    /// The effective address that the mode resolves to and whether
    /// resolving it crossed a page. Modes that name no memory location
    /// give address 0.
    pub open spec fn spec_addr(self, memory: Seq<u8>, r: RegisterState) -> (u16, bool) {
        match self {
            AddressingMode::Immediate => (mem::spec_get_imm_addr(r), false),
            AddressingMode::ZeroPage => (mem::spec_get_zero_page_addr(memory, r), false),
            AddressingMode::ZeroPageX => (mem::spec_get_zero_page_x_addr(memory, r), false),
            AddressingMode::ZeroPageY => (mem::spec_get_zero_page_y_addr(memory, r), false),
            AddressingMode::Absolute => (mem::spec_get_abs_addr(memory, r), false),
            AddressingMode::AbsoluteX => mem::spec_get_abs_x_addr(memory, r),
            AddressingMode::AbsoluteY => mem::spec_get_abs_y_addr(memory, r),
            AddressingMode::IndirectX => (mem::spec_get_indirect_x_addr(memory, r), false),
            AddressingMode::IndirectY => mem::spec_get_indirect_y_addr(memory, r),
            _ => (0, false),
        }
    }
}

/// What the opcode table records of an instruction.
#[derive(Debug, Clone, Copy, PartialEq, Eq, Structural)]
pub struct OpInfo {
    /// The byte that encodes the instruction.
    pub byte: u8,
    /// Its addressing mode.
    pub mode: AddressingMode,
    /// Its base cycle cost, before any penalty for a taken branch or a
    /// crossed page.
    pub cycles: u8,
}

/// Registers, memory and cycle count after one instruction.
pub struct Outcome {
    pub registers: RegisterState,
    pub memory: Seq<u8>,
    pub cycles: u32,
}

/// The instructions, one variant for each pair of mnemonic and addressing
/// mode.
#[derive(Debug, Clone, Copy, PartialEq, Eq, Structural)]
pub enum OpCode {
    AdcImm,
    AdcZeroPage,
    AdcZeroPageX,
    AdcAbs,
    AdcAbsX,
    AdcAbsY,
    AdcIndirectX,
    AdcIndirectY,
    AndImm,
    AndZeroPage,
    AndZeroPageX,
    AndAbs,
    AndAbsX,
    AndAbsY,
    AndIndirectX,
    AndIndirectY,
    AslAcc,
    AslZeroPage,
    AslZeroPageX,
    AslAbs,
    AslAbsX,
    Bcc,
    Bcs,
    Beq,
    Bmi,
    Bne,
    Bpl,
    Bvc,
    Bvs,
    BitZeroPage,
    BitAbs,
    Clc,
    Cld,
    Cli,
    Clv,
    LdaImm,
    LdaZeroPage,
    LdaZeroPageX,
    LdaAbs,
    LdaAbsX,
    LdaAbsY,
    LdaIndirectX,
    LdaIndirectY,
    LdxImm,
    LdxZeroPage,
    LdxZeroPageY,
    LdxAbs,
    LdxAbsY,
    LdyImm,
    LdyZeroPage,
    LdyZeroPageX,
    LdyAbs,
    LdyAbsX,
    Nop,
    Sec,
    Sed,
    Sei,
}

impl OpCode {
    /// The table entry of the instruction.
    pub open spec fn spec_info(self) -> OpInfo {
        match self {
            OpCode::AdcImm => OpInfo { byte: 0x69, mode: AddressingMode::Immediate, cycles: 2 },
            OpCode::AdcZeroPage => OpInfo { byte: 0x65, mode: AddressingMode::ZeroPage, cycles: 3 },
            OpCode::AdcZeroPageX => OpInfo {
                byte: 0x75,
                mode: AddressingMode::ZeroPageX,
                cycles: 4,
            },
            OpCode::AdcAbs => OpInfo { byte: 0x6D, mode: AddressingMode::Absolute, cycles: 4 },
            OpCode::AdcAbsX => OpInfo { byte: 0x7D, mode: AddressingMode::AbsoluteX, cycles: 4 },
            OpCode::AdcAbsY => OpInfo { byte: 0x79, mode: AddressingMode::AbsoluteY, cycles: 4 },
            OpCode::AdcIndirectX => OpInfo {
                byte: 0x61,
                mode: AddressingMode::IndirectX,
                cycles: 6,
            },
            OpCode::AdcIndirectY => OpInfo {
                byte: 0x71,
                mode: AddressingMode::IndirectY,
                cycles: 5,
            },
            OpCode::AndImm => OpInfo { byte: 0x29, mode: AddressingMode::Immediate, cycles: 2 },
            OpCode::AndZeroPage => OpInfo { byte: 0x25, mode: AddressingMode::ZeroPage, cycles: 3 },
            OpCode::AndZeroPageX => OpInfo {
                byte: 0x35,
                mode: AddressingMode::ZeroPageX,
                cycles: 4,
            },
            OpCode::AndAbs => OpInfo { byte: 0x2D, mode: AddressingMode::Absolute, cycles: 4 },
            OpCode::AndAbsX => OpInfo { byte: 0x3D, mode: AddressingMode::AbsoluteX, cycles: 4 },
            OpCode::AndAbsY => OpInfo { byte: 0x39, mode: AddressingMode::AbsoluteY, cycles: 4 },
            OpCode::AndIndirectX => OpInfo {
                byte: 0x21,
                mode: AddressingMode::IndirectX,
                cycles: 6,
            },
            OpCode::AndIndirectY => OpInfo {
                byte: 0x31,
                mode: AddressingMode::IndirectY,
                cycles: 5,
            },
            OpCode::AslAcc => OpInfo { byte: 0x0A, mode: AddressingMode::Accumulator, cycles: 2 },
            OpCode::AslZeroPage => OpInfo { byte: 0x06, mode: AddressingMode::ZeroPage, cycles: 5 },
            OpCode::AslZeroPageX => OpInfo {
                byte: 0x16,
                mode: AddressingMode::ZeroPageX,
                cycles: 6,
            },
            OpCode::AslAbs => OpInfo { byte: 0x0E, mode: AddressingMode::Absolute, cycles: 6 },
            OpCode::AslAbsX => OpInfo { byte: 0x1E, mode: AddressingMode::AbsoluteX, cycles: 7 },
            OpCode::Bcc => OpInfo { byte: 0x90, mode: AddressingMode::Relative, cycles: 2 },
            OpCode::Bcs => OpInfo { byte: 0xB0, mode: AddressingMode::Relative, cycles: 2 },
            OpCode::Beq => OpInfo { byte: 0xF0, mode: AddressingMode::Relative, cycles: 2 },
            OpCode::Bmi => OpInfo { byte: 0x30, mode: AddressingMode::Relative, cycles: 2 },
            OpCode::Bne => OpInfo { byte: 0xD0, mode: AddressingMode::Relative, cycles: 2 },
            OpCode::Bpl => OpInfo { byte: 0x10, mode: AddressingMode::Relative, cycles: 2 },
            OpCode::Bvc => OpInfo { byte: 0x50, mode: AddressingMode::Relative, cycles: 2 },
            OpCode::Bvs => OpInfo { byte: 0x70, mode: AddressingMode::Relative, cycles: 2 },
            OpCode::BitZeroPage => OpInfo { byte: 0x24, mode: AddressingMode::ZeroPage, cycles: 3 },
            OpCode::BitAbs => OpInfo { byte: 0x2C, mode: AddressingMode::Absolute, cycles: 4 },
            OpCode::Clc => OpInfo { byte: 0x00, mode: AddressingMode::Implied, cycles: 2 },
            OpCode::Cld => OpInfo { byte: 0xD8, mode: AddressingMode::Implied, cycles: 2 },
            OpCode::Cli => OpInfo { byte: 0x58, mode: AddressingMode::Implied, cycles: 2 },
            OpCode::Clv => OpInfo { byte: 0xB8, mode: AddressingMode::Implied, cycles: 2 },
            OpCode::LdaImm => OpInfo { byte: 0xA9, mode: AddressingMode::Immediate, cycles: 2 },
            OpCode::LdaZeroPage => OpInfo { byte: 0xA5, mode: AddressingMode::ZeroPage, cycles: 3 },
            OpCode::LdaZeroPageX => OpInfo {
                byte: 0xB5,
                mode: AddressingMode::ZeroPageX,
                cycles: 4,
            },
            OpCode::LdaAbs => OpInfo { byte: 0xAD, mode: AddressingMode::Absolute, cycles: 4 },
            OpCode::LdaAbsX => OpInfo { byte: 0xBD, mode: AddressingMode::AbsoluteX, cycles: 4 },
            OpCode::LdaAbsY => OpInfo { byte: 0xB9, mode: AddressingMode::AbsoluteY, cycles: 4 },
            OpCode::LdaIndirectX => OpInfo {
                byte: 0xA1,
                mode: AddressingMode::IndirectX,
                cycles: 6,
            },
            OpCode::LdaIndirectY => OpInfo {
                byte: 0xB1,
                mode: AddressingMode::IndirectY,
                cycles: 5,
            },
            OpCode::LdxImm => OpInfo { byte: 0xA2, mode: AddressingMode::Immediate, cycles: 2 },
            OpCode::LdxZeroPage => OpInfo { byte: 0xA6, mode: AddressingMode::ZeroPage, cycles: 3 },
            OpCode::LdxZeroPageY => OpInfo {
                byte: 0xB6,
                mode: AddressingMode::ZeroPageY,
                cycles: 4,
            },
            OpCode::LdxAbs => OpInfo { byte: 0xAE, mode: AddressingMode::Absolute, cycles: 4 },
            OpCode::LdxAbsY => OpInfo { byte: 0xBE, mode: AddressingMode::AbsoluteY, cycles: 4 },
            OpCode::LdyImm => OpInfo { byte: 0xA0, mode: AddressingMode::Immediate, cycles: 2 },
            OpCode::LdyZeroPage => OpInfo { byte: 0xA4, mode: AddressingMode::ZeroPage, cycles: 3 },
            OpCode::LdyZeroPageX => OpInfo {
                byte: 0xB4,
                mode: AddressingMode::ZeroPageX,
                cycles: 4,
            },
            OpCode::LdyAbs => OpInfo { byte: 0xAC, mode: AddressingMode::Absolute, cycles: 4 },
            OpCode::LdyAbsX => OpInfo { byte: 0xBC, mode: AddressingMode::AbsoluteX, cycles: 4 },
            OpCode::Nop => OpInfo { byte: 0xEA, mode: AddressingMode::Implied, cycles: 2 },
            OpCode::Sec => OpInfo { byte: 0x38, mode: AddressingMode::Implied, cycles: 2 },
            OpCode::Sed => OpInfo { byte: 0xF8, mode: AddressingMode::Implied, cycles: 2 },
            OpCode::Sei => OpInfo { byte: 0x78, mode: AddressingMode::Implied, cycles: 2 },
        }
    }

    /// The table entry of the instruction.
    pub fn info(&self) -> (info: OpInfo)
        ensures
            info == self.spec_info(),
    {
        match self {
            OpCode::AdcImm => OpInfo { byte: 0x69, mode: AddressingMode::Immediate, cycles: 2 },
            OpCode::AdcZeroPage => OpInfo { byte: 0x65, mode: AddressingMode::ZeroPage, cycles: 3 },
            OpCode::AdcZeroPageX => OpInfo {
                byte: 0x75,
                mode: AddressingMode::ZeroPageX,
                cycles: 4,
            },
            OpCode::AdcAbs => OpInfo { byte: 0x6D, mode: AddressingMode::Absolute, cycles: 4 },
            OpCode::AdcAbsX => OpInfo { byte: 0x7D, mode: AddressingMode::AbsoluteX, cycles: 4 },
            OpCode::AdcAbsY => OpInfo { byte: 0x79, mode: AddressingMode::AbsoluteY, cycles: 4 },
            OpCode::AdcIndirectX => OpInfo {
                byte: 0x61,
                mode: AddressingMode::IndirectX,
                cycles: 6,
            },
            OpCode::AdcIndirectY => OpInfo {
                byte: 0x71,
                mode: AddressingMode::IndirectY,
                cycles: 5,
            },
            OpCode::AndImm => OpInfo { byte: 0x29, mode: AddressingMode::Immediate, cycles: 2 },
            OpCode::AndZeroPage => OpInfo { byte: 0x25, mode: AddressingMode::ZeroPage, cycles: 3 },
            OpCode::AndZeroPageX => OpInfo {
                byte: 0x35,
                mode: AddressingMode::ZeroPageX,
                cycles: 4,
            },
            OpCode::AndAbs => OpInfo { byte: 0x2D, mode: AddressingMode::Absolute, cycles: 4 },
            OpCode::AndAbsX => OpInfo { byte: 0x3D, mode: AddressingMode::AbsoluteX, cycles: 4 },
            OpCode::AndAbsY => OpInfo { byte: 0x39, mode: AddressingMode::AbsoluteY, cycles: 4 },
            OpCode::AndIndirectX => OpInfo {
                byte: 0x21,
                mode: AddressingMode::IndirectX,
                cycles: 6,
            },
            OpCode::AndIndirectY => OpInfo {
                byte: 0x31,
                mode: AddressingMode::IndirectY,
                cycles: 5,
            },
            OpCode::AslAcc => OpInfo { byte: 0x0A, mode: AddressingMode::Accumulator, cycles: 2 },
            OpCode::AslZeroPage => OpInfo { byte: 0x06, mode: AddressingMode::ZeroPage, cycles: 5 },
            OpCode::AslZeroPageX => OpInfo {
                byte: 0x16,
                mode: AddressingMode::ZeroPageX,
                cycles: 6,
            },
            OpCode::AslAbs => OpInfo { byte: 0x0E, mode: AddressingMode::Absolute, cycles: 6 },
            OpCode::AslAbsX => OpInfo { byte: 0x1E, mode: AddressingMode::AbsoluteX, cycles: 7 },
            OpCode::Bcc => OpInfo { byte: 0x90, mode: AddressingMode::Relative, cycles: 2 },
            OpCode::Bcs => OpInfo { byte: 0xB0, mode: AddressingMode::Relative, cycles: 2 },
            OpCode::Beq => OpInfo { byte: 0xF0, mode: AddressingMode::Relative, cycles: 2 },
            OpCode::Bmi => OpInfo { byte: 0x30, mode: AddressingMode::Relative, cycles: 2 },
            OpCode::Bne => OpInfo { byte: 0xD0, mode: AddressingMode::Relative, cycles: 2 },
            OpCode::Bpl => OpInfo { byte: 0x10, mode: AddressingMode::Relative, cycles: 2 },
            OpCode::Bvc => OpInfo { byte: 0x50, mode: AddressingMode::Relative, cycles: 2 },
            OpCode::Bvs => OpInfo { byte: 0x70, mode: AddressingMode::Relative, cycles: 2 },
            OpCode::BitZeroPage => OpInfo { byte: 0x24, mode: AddressingMode::ZeroPage, cycles: 3 },
            OpCode::BitAbs => OpInfo { byte: 0x2C, mode: AddressingMode::Absolute, cycles: 4 },
            OpCode::Clc => OpInfo { byte: 0x00, mode: AddressingMode::Implied, cycles: 2 },
            OpCode::Cld => OpInfo { byte: 0xD8, mode: AddressingMode::Implied, cycles: 2 },
            OpCode::Cli => OpInfo { byte: 0x58, mode: AddressingMode::Implied, cycles: 2 },
            OpCode::Clv => OpInfo { byte: 0xB8, mode: AddressingMode::Implied, cycles: 2 },
            OpCode::LdaImm => OpInfo { byte: 0xA9, mode: AddressingMode::Immediate, cycles: 2 },
            OpCode::LdaZeroPage => OpInfo { byte: 0xA5, mode: AddressingMode::ZeroPage, cycles: 3 },
            OpCode::LdaZeroPageX => OpInfo {
                byte: 0xB5,
                mode: AddressingMode::ZeroPageX,
                cycles: 4,
            },
            OpCode::LdaAbs => OpInfo { byte: 0xAD, mode: AddressingMode::Absolute, cycles: 4 },
            OpCode::LdaAbsX => OpInfo { byte: 0xBD, mode: AddressingMode::AbsoluteX, cycles: 4 },
            OpCode::LdaAbsY => OpInfo { byte: 0xB9, mode: AddressingMode::AbsoluteY, cycles: 4 },
            OpCode::LdaIndirectX => OpInfo {
                byte: 0xA1,
                mode: AddressingMode::IndirectX,
                cycles: 6,
            },
            OpCode::LdaIndirectY => OpInfo {
                byte: 0xB1,
                mode: AddressingMode::IndirectY,
                cycles: 5,
            },
            OpCode::LdxImm => OpInfo { byte: 0xA2, mode: AddressingMode::Immediate, cycles: 2 },
            OpCode::LdxZeroPage => OpInfo { byte: 0xA6, mode: AddressingMode::ZeroPage, cycles: 3 },
            OpCode::LdxZeroPageY => OpInfo {
                byte: 0xB6,
                mode: AddressingMode::ZeroPageY,
                cycles: 4,
            },
            OpCode::LdxAbs => OpInfo { byte: 0xAE, mode: AddressingMode::Absolute, cycles: 4 },
            OpCode::LdxAbsY => OpInfo { byte: 0xBE, mode: AddressingMode::AbsoluteY, cycles: 4 },
            OpCode::LdyImm => OpInfo { byte: 0xA0, mode: AddressingMode::Immediate, cycles: 2 },
            OpCode::LdyZeroPage => OpInfo { byte: 0xA4, mode: AddressingMode::ZeroPage, cycles: 3 },
            OpCode::LdyZeroPageX => OpInfo {
                byte: 0xB4,
                mode: AddressingMode::ZeroPageX,
                cycles: 4,
            },
            OpCode::LdyAbs => OpInfo { byte: 0xAC, mode: AddressingMode::Absolute, cycles: 4 },
            OpCode::LdyAbsX => OpInfo { byte: 0xBC, mode: AddressingMode::AbsoluteX, cycles: 4 },
            OpCode::Nop => OpInfo { byte: 0xEA, mode: AddressingMode::Implied, cycles: 2 },
            OpCode::Sec => OpInfo { byte: 0x38, mode: AddressingMode::Implied, cycles: 2 },
            OpCode::Sed => OpInfo { byte: 0xF8, mode: AddressingMode::Implied, cycles: 2 },
            OpCode::Sei => OpInfo { byte: 0x78, mode: AddressingMode::Implied, cycles: 2 },
        }
    }

    /// Number of operand bytes that follow the opcode: 0, 1 or 2.
    pub fn operands_num(&self) -> (n: u8)
        ensures
            n == self.spec_info().mode.spec_operands_num(),
            n <= 2,
    {
        self.info().mode.operands_num()
    }

    /// Base cycle cost of the instruction.
    pub fn cycles_num(&self) -> (n: u8)
        ensures
            n == self.spec_info().cycles,
    {
        self.info().cycles
    }

    /// Addressing mode of the instruction.
    pub fn mode(&self) -> (mode: AddressingMode)
        ensures
            mode == self.spec_info().mode,
    {
        self.info().mode
    }

    /// The instruction that `byte` encodes, if it encodes one.
    pub open spec fn spec_from_byte(byte: u8) -> Option<OpCode> {
        if byte == 0x69 {
            Some(OpCode::AdcImm)
        } else if byte == 0x65 {
            Some(OpCode::AdcZeroPage)
        } else if byte == 0x75 {
            Some(OpCode::AdcZeroPageX)
        } else if byte == 0x6D {
            Some(OpCode::AdcAbs)
        } else if byte == 0x7D {
            Some(OpCode::AdcAbsX)
        } else if byte == 0x79 {
            Some(OpCode::AdcAbsY)
        } else if byte == 0x61 {
            Some(OpCode::AdcIndirectX)
        } else if byte == 0x71 {
            Some(OpCode::AdcIndirectY)
        } else if byte == 0x29 {
            Some(OpCode::AndImm)
        } else if byte == 0x25 {
            Some(OpCode::AndZeroPage)
        } else if byte == 0x35 {
            Some(OpCode::AndZeroPageX)
        } else if byte == 0x2D {
            Some(OpCode::AndAbs)
        } else if byte == 0x3D {
            Some(OpCode::AndAbsX)
        } else if byte == 0x39 {
            Some(OpCode::AndAbsY)
        } else if byte == 0x21 {
            Some(OpCode::AndIndirectX)
        } else if byte == 0x31 {
            Some(OpCode::AndIndirectY)
        } else if byte == 0x0A {
            Some(OpCode::AslAcc)
        } else if byte == 0x06 {
            Some(OpCode::AslZeroPage)
        } else if byte == 0x16 {
            Some(OpCode::AslZeroPageX)
        } else if byte == 0x0E {
            Some(OpCode::AslAbs)
        } else if byte == 0x1E {
            Some(OpCode::AslAbsX)
        } else if byte == 0x90 {
            Some(OpCode::Bcc)
        } else if byte == 0xB0 {
            Some(OpCode::Bcs)
        } else if byte == 0xF0 {
            Some(OpCode::Beq)
        } else if byte == 0x30 {
            Some(OpCode::Bmi)
        } else if byte == 0xD0 {
            Some(OpCode::Bne)
        } else if byte == 0x10 {
            Some(OpCode::Bpl)
        } else if byte == 0x50 {
            Some(OpCode::Bvc)
        } else if byte == 0x70 {
            Some(OpCode::Bvs)
        } else if byte == 0x24 {
            Some(OpCode::BitZeroPage)
        } else if byte == 0x2C {
            Some(OpCode::BitAbs)
        } else if byte == 0x00 {
            Some(OpCode::Clc)
        } else if byte == 0xD8 {
            Some(OpCode::Cld)
        } else if byte == 0x58 {
            Some(OpCode::Cli)
        } else if byte == 0xB8 {
            Some(OpCode::Clv)
        } else if byte == 0xA9 {
            Some(OpCode::LdaImm)
        } else if byte == 0xA5 {
            Some(OpCode::LdaZeroPage)
        } else if byte == 0xB5 {
            Some(OpCode::LdaZeroPageX)
        } else if byte == 0xAD {
            Some(OpCode::LdaAbs)
        } else if byte == 0xBD {
            Some(OpCode::LdaAbsX)
        } else if byte == 0xB9 {
            Some(OpCode::LdaAbsY)
        } else if byte == 0xA1 {
            Some(OpCode::LdaIndirectX)
        } else if byte == 0xB1 {
            Some(OpCode::LdaIndirectY)
        } else if byte == 0xA2 {
            Some(OpCode::LdxImm)
        } else if byte == 0xA6 {
            Some(OpCode::LdxZeroPage)
        } else if byte == 0xB6 {
            Some(OpCode::LdxZeroPageY)
        } else if byte == 0xAE {
            Some(OpCode::LdxAbs)
        } else if byte == 0xBE {
            Some(OpCode::LdxAbsY)
        } else if byte == 0xA0 {
            Some(OpCode::LdyImm)
        } else if byte == 0xA4 {
            Some(OpCode::LdyZeroPage)
        } else if byte == 0xB4 {
            Some(OpCode::LdyZeroPageX)
        } else if byte == 0xAC {
            Some(OpCode::LdyAbs)
        } else if byte == 0xBC {
            Some(OpCode::LdyAbsX)
        } else if byte == 0xEA {
            Some(OpCode::Nop)
        } else if byte == 0x38 {
            Some(OpCode::Sec)
        } else if byte == 0xF8 {
            Some(OpCode::Sed)
        } else if byte == 0x78 {
            Some(OpCode::Sei)
        } else {
            None
        }
    }

    /// Decodes `byte`. Every byte gives either the instruction that it
    /// encodes or, where the table assigns it to none, an `IllegalOpcode`
    /// that carries the byte.
    pub fn from_byte(byte: u8) -> (r: Result<OpCode, IllegalOpcode>)
        ensures
            r == match OpCode::spec_from_byte(byte) {
                Some(op) => Ok::<OpCode, IllegalOpcode>(op),
                None => Err::<OpCode, IllegalOpcode>(IllegalOpcode(byte)),
            },
    {
        match byte {
            0x69 => Ok(OpCode::AdcImm),
            0x65 => Ok(OpCode::AdcZeroPage),
            0x75 => Ok(OpCode::AdcZeroPageX),
            0x6D => Ok(OpCode::AdcAbs),
            0x7D => Ok(OpCode::AdcAbsX),
            0x79 => Ok(OpCode::AdcAbsY),
            0x61 => Ok(OpCode::AdcIndirectX),
            0x71 => Ok(OpCode::AdcIndirectY),
            0x29 => Ok(OpCode::AndImm),
            0x25 => Ok(OpCode::AndZeroPage),
            0x35 => Ok(OpCode::AndZeroPageX),
            0x2D => Ok(OpCode::AndAbs),
            0x3D => Ok(OpCode::AndAbsX),
            0x39 => Ok(OpCode::AndAbsY),
            0x21 => Ok(OpCode::AndIndirectX),
            0x31 => Ok(OpCode::AndIndirectY),
            0x0A => Ok(OpCode::AslAcc),
            0x06 => Ok(OpCode::AslZeroPage),
            0x16 => Ok(OpCode::AslZeroPageX),
            0x0E => Ok(OpCode::AslAbs),
            0x1E => Ok(OpCode::AslAbsX),
            0x90 => Ok(OpCode::Bcc),
            0xB0 => Ok(OpCode::Bcs),
            0xF0 => Ok(OpCode::Beq),
            0x30 => Ok(OpCode::Bmi),
            0xD0 => Ok(OpCode::Bne),
            0x10 => Ok(OpCode::Bpl),
            0x50 => Ok(OpCode::Bvc),
            0x70 => Ok(OpCode::Bvs),
            0x24 => Ok(OpCode::BitZeroPage),
            0x2C => Ok(OpCode::BitAbs),
            0x00 => Ok(OpCode::Clc),
            0xD8 => Ok(OpCode::Cld),
            0x58 => Ok(OpCode::Cli),
            0xB8 => Ok(OpCode::Clv),
            0xA9 => Ok(OpCode::LdaImm),
            0xA5 => Ok(OpCode::LdaZeroPage),
            0xB5 => Ok(OpCode::LdaZeroPageX),
            0xAD => Ok(OpCode::LdaAbs),
            0xBD => Ok(OpCode::LdaAbsX),
            0xB9 => Ok(OpCode::LdaAbsY),
            0xA1 => Ok(OpCode::LdaIndirectX),
            0xB1 => Ok(OpCode::LdaIndirectY),
            0xA2 => Ok(OpCode::LdxImm),
            0xA6 => Ok(OpCode::LdxZeroPage),
            0xB6 => Ok(OpCode::LdxZeroPageY),
            0xAE => Ok(OpCode::LdxAbs),
            0xBE => Ok(OpCode::LdxAbsY),
            0xA0 => Ok(OpCode::LdyImm),
            0xA4 => Ok(OpCode::LdyZeroPage),
            0xB4 => Ok(OpCode::LdyZeroPageX),
            0xAC => Ok(OpCode::LdyAbs),
            0xBC => Ok(OpCode::LdyAbsX),
            0xEA => Ok(OpCode::Nop),
            0x38 => Ok(OpCode::Sec),
            0xF8 => Ok(OpCode::Sed),
            0x78 => Ok(OpCode::Sei),
            _ => Err(IllegalOpcode(byte)),
        }
    }

    /// Registers, memory and cycle count after the instruction has run on
    /// `r` and `memory`, the program counter pointing at its opcode. The
    /// program counter is not yet advanced past the instruction.
    pub open spec fn spec_run(self, r: RegisterState, memory: Seq<u8>) -> Outcome {
        let mode = self.spec_info().mode;
        let base = self.spec_info().cycles as u32;
        let (val, crossed) = mode.spec_read(memory, r);
        let read_cycles = if crossed {
            (base + 1) as u32
        } else {
            base
        };
        match self {
            OpCode::AdcImm
            | OpCode::AdcZeroPage
            | OpCode::AdcZeroPageX
            | OpCode::AdcAbs
            | OpCode::AdcAbsX
            | OpCode::AdcAbsY
            | OpCode::AdcIndirectX
            | OpCode::AdcIndirectY => Outcome {
                registers: adc::spec_adc(r, val),
                memory,
                cycles: read_cycles,
            },
            OpCode::AndImm
            | OpCode::AndZeroPage
            | OpCode::AndZeroPageX
            | OpCode::AndAbs
            | OpCode::AndAbsX
            | OpCode::AndAbsY
            | OpCode::AndIndirectX
            | OpCode::AndIndirectY => Outcome {
                registers: and::spec_and(r, val),
                memory,
                cycles: read_cycles,
            },
            OpCode::BitZeroPage
            | OpCode::BitAbs => Outcome {
                registers: bit::spec_bit(r, val),
                memory,
                cycles: read_cycles,
            },
            OpCode::LdaImm
            | OpCode::LdaZeroPage
            | OpCode::LdaZeroPageX
            | OpCode::LdaAbs
            | OpCode::LdaAbsX
            | OpCode::LdaAbsY
            | OpCode::LdaIndirectX
            | OpCode::LdaIndirectY => Outcome {
                registers: lda::spec_lda(r, val),
                memory,
                cycles: read_cycles,
            },
            OpCode::LdxImm
            | OpCode::LdxZeroPage
            | OpCode::LdxZeroPageY
            | OpCode::LdxAbs
            | OpCode::LdxAbsY => Outcome {
                registers: ldx::spec_ldx(r, val),
                memory,
                cycles: read_cycles,
            },
            OpCode::LdyImm
            | OpCode::LdyZeroPage
            | OpCode::LdyZeroPageX
            | OpCode::LdyAbs
            | OpCode::LdyAbsX => Outcome {
                registers: ldy::spec_ldy(r, val),
                memory,
                cycles: read_cycles,
            },
            OpCode::AslAcc => Outcome {
                registers: RegisterState { a: asl::spec_asl_value(r.a), ..asl::spec_asl(r, r.a) },
                memory,
                cycles: base,
            },
            OpCode::AslZeroPage
            | OpCode::AslZeroPageX
            | OpCode::AslAbs
            | OpCode::AslAbsX => Outcome {
                registers: asl::spec_asl_memory(r, memory, mode.spec_addr(memory, r).0).0,
                memory: asl::spec_asl_memory(r, memory, mode.spec_addr(memory, r).0).1,
                cycles: base,
            },
            OpCode::Bcc => Outcome {
                registers: spec_branch(r, val, !r.carry).0,
                memory,
                cycles: spec_branch(r, val, !r.carry).1,
            },
            OpCode::Bcs => Outcome {
                registers: spec_branch(r, val, r.carry).0,
                memory,
                cycles: spec_branch(r, val, r.carry).1,
            },
            OpCode::Beq => Outcome {
                registers: spec_branch(r, val, r.zero).0,
                memory,
                cycles: spec_branch(r, val, r.zero).1,
            },
            OpCode::Bmi => Outcome {
                registers: spec_branch(r, val, r.sign).0,
                memory,
                cycles: spec_branch(r, val, r.sign).1,
            },
            OpCode::Bne => Outcome {
                registers: spec_branch(r, val, !r.zero).0,
                memory,
                cycles: spec_branch(r, val, !r.zero).1,
            },
            OpCode::Bpl => Outcome {
                registers: spec_branch(r, val, !r.sign).0,
                memory,
                cycles: spec_branch(r, val, !r.sign).1,
            },
            OpCode::Bvc => Outcome {
                registers: spec_branch(r, val, !r.overflow).0,
                memory,
                cycles: spec_branch(r, val, !r.overflow).1,
            },
            OpCode::Bvs => Outcome {
                registers: spec_branch(r, val, r.overflow).0,
                memory,
                cycles: spec_branch(r, val, r.overflow).1,
            },
            OpCode::Clc => Outcome { registers: clc::spec_clc(r), memory, cycles: base },
            OpCode::Cld => Outcome { registers: cld::spec_cld(r), memory, cycles: base },
            OpCode::Cli => Outcome { registers: cli::spec_cli(r), memory, cycles: base },
            OpCode::Clv => Outcome { registers: clv::spec_clv(r), memory, cycles: base },
            OpCode::Sec => Outcome { registers: sec::spec_sec(r), memory, cycles: base },
            OpCode::Sed => Outcome { registers: sed::spec_sed(r), memory, cycles: base },
            OpCode::Sei => Outcome { registers: sei::spec_sei(r), memory, cycles: base },
            OpCode::Nop => Outcome { registers: r, memory, cycles: base },
        }
    }

    /// Runs the instruction on `registers` and `mem`, the program counter
    /// pointing at its opcode, and returns the cycles it took. The program
    /// counter is not yet advanced past the instruction.
    pub fn run(&self, registers: &mut Registers, mem: &mut Memory) -> (cycle: Cycle)
        ensures
            (Outcome { registers: final(registers)@, memory: final(mem)@, cycles: cycle.0 })
                == self.spec_run(old(registers)@, old(mem)@),
    {
        match self {
            OpCode::AdcImm => adc::adc_imm(registers, mem),
            OpCode::AdcZeroPage => adc::adc_zero_page(registers, mem),
            OpCode::AdcZeroPageX => adc::adc_zero_page_x(registers, mem),
            OpCode::AdcAbs => adc::adc_abs(registers, mem),
            OpCode::AdcAbsX => adc::adc_abs_x(registers, mem),
            OpCode::AdcAbsY => adc::adc_abs_y(registers, mem),
            OpCode::AdcIndirectX => adc::adc_indirect_x(registers, mem),
            OpCode::AdcIndirectY => adc::adc_indirect_y(registers, mem),
            OpCode::AndImm => and::and_imm(registers, mem),
            OpCode::AndZeroPage => and::and_zero_page(registers, mem),
            OpCode::AndZeroPageX => and::and_zero_page_x(registers, mem),
            OpCode::AndAbs => and::and_abs(registers, mem),
            OpCode::AndAbsX => and::and_abs_x(registers, mem),
            OpCode::AndAbsY => and::and_abs_y(registers, mem),
            OpCode::AndIndirectX => and::and_indirect_x(registers, mem),
            OpCode::AndIndirectY => and::and_indirect_y(registers, mem),
            OpCode::AslAcc => asl::asl_register_a(registers, mem),
            OpCode::AslZeroPage => asl::asl_zero_page(registers, mem),
            OpCode::AslZeroPageX => asl::asl_zero_page_x(registers, mem),
            OpCode::AslAbs => asl::asl_abs(registers, mem),
            OpCode::AslAbsX => asl::asl_abs_x(registers, mem),
            OpCode::Bcc => bcc::bcc_relative(registers, mem),
            OpCode::Bcs => bcs::bcs_relative(registers, mem),
            OpCode::Beq => beq::beq_relative(registers, mem),
            OpCode::Bmi => bmi::bmi_relative(registers, mem),
            OpCode::Bne => bne::bne_relative(registers, mem),
            OpCode::Bpl => bpl::bpl_relative(registers, mem),
            OpCode::Bvc => bvc::bvc_relative(registers, mem),
            OpCode::Bvs => bvs::bvs_relative(registers, mem),
            OpCode::BitZeroPage => bit::bit_zero_page(registers, mem),
            OpCode::BitAbs => bit::bit_abs(registers, mem),
            OpCode::Clc => clc::clc_implied(registers, mem),
            OpCode::Cld => cld::cld_implied(registers, mem),
            OpCode::Cli => cli::cli_implied(registers, mem),
            OpCode::Clv => clv::clv_implied(registers, mem),
            OpCode::LdaImm => lda::lda_imm(registers, mem),
            OpCode::LdaZeroPage => lda::lda_zero_page(registers, mem),
            OpCode::LdaZeroPageX => lda::lda_zero_page_x(registers, mem),
            OpCode::LdaAbs => lda::lda_abs(registers, mem),
            OpCode::LdaAbsX => lda::lda_abs_x(registers, mem),
            OpCode::LdaAbsY => lda::lda_abs_y(registers, mem),
            OpCode::LdaIndirectX => lda::lda_indirect_x(registers, mem),
            OpCode::LdaIndirectY => lda::lda_indirect_y(registers, mem),
            OpCode::LdxImm => ldx::ldx_imm(registers, mem),
            OpCode::LdxZeroPage => ldx::ldx_zero_page(registers, mem),
            OpCode::LdxZeroPageY => ldx::ldx_zero_page_y(registers, mem),
            OpCode::LdxAbs => ldx::ldx_abs(registers, mem),
            OpCode::LdxAbsY => ldx::ldx_abs_y(registers, mem),
            OpCode::LdyImm => ldy::ldy_imm(registers, mem),
            OpCode::LdyZeroPage => ldy::ldy_zero_page(registers, mem),
            OpCode::LdyZeroPageX => ldy::ldy_zero_page_x(registers, mem),
            OpCode::LdyAbs => ldy::ldy_abs(registers, mem),
            OpCode::LdyAbsX => ldy::ldy_abs_x(registers, mem),
            OpCode::Nop => nop::nop(registers, mem),
            OpCode::Sec => sec::sec_implied(registers, mem),
            OpCode::Sed => sed::sed_implied(registers, mem),
            OpCode::Sei => sei::sei_implied(registers, mem),
        }
    }
}

impl From<OpCode> for u8 {
    /// The byte that encodes `opcode`.
    fn from(opcode: OpCode) -> (byte: u8) {
        opcode.info().byte
    }
}

impl vstd::std_specs::convert::FromSpecImpl<OpCode> for u8 {
    open spec fn obeys_from_spec() -> bool {
        true
    }

    open spec fn from_spec(opcode: OpCode) -> u8 {
        opcode.spec_info().byte
    }
}

impl OpCode {
    /// Whether the instruction only reads the operand that its addressing
    /// mode resolves: the additions, the logical operations and the loads.
    pub open spec fn spec_reads_operand(self) -> bool {
        match self {
            OpCode::AdcImm
            | OpCode::AdcZeroPage
            | OpCode::AdcZeroPageX
            | OpCode::AdcAbs
            | OpCode::AdcAbsX
            | OpCode::AdcAbsY
            | OpCode::AdcIndirectX
            | OpCode::AdcIndirectY
            | OpCode::AndImm
            | OpCode::AndZeroPage
            | OpCode::AndZeroPageX
            | OpCode::AndAbs
            | OpCode::AndAbsX
            | OpCode::AndAbsY
            | OpCode::AndIndirectX
            | OpCode::AndIndirectY
            | OpCode::BitZeroPage
            | OpCode::BitAbs
            | OpCode::LdaImm
            | OpCode::LdaZeroPage
            | OpCode::LdaZeroPageX
            | OpCode::LdaAbs
            | OpCode::LdaAbsX
            | OpCode::LdaAbsY
            | OpCode::LdaIndirectX
            | OpCode::LdaIndirectY
            | OpCode::LdxImm
            | OpCode::LdxZeroPage
            | OpCode::LdxZeroPageY
            | OpCode::LdxAbs
            | OpCode::LdxAbsY
            | OpCode::LdyImm
            | OpCode::LdyZeroPage
            | OpCode::LdyZeroPageX
            | OpCode::LdyAbs
            | OpCode::LdyAbsX => true,
            _ => false,
        }
    }
}

/// An instruction that reads its operand with absolute,X, absolute,Y or
/// indirect,Y addressing takes its base number of cycles when the index
/// leaves the address on the page of the base, and one more when it carries
/// the address onto the next page.
pub proof fn lemma_indexed_read_cycles(opcode: OpCode, r: RegisterState, memory: Seq<u8>)
    requires
        opcode.spec_reads_operand(),
        opcode.spec_info().mode == AddressingMode::AbsoluteX || opcode.spec_info().mode
            == AddressingMode::AbsoluteY || opcode.spec_info().mode == AddressingMode::IndirectY,
    ensures
        opcode.spec_run(r, memory).cycles == opcode.spec_info().cycles + (if opcode.spec_info()
            .mode.spec_addr(memory, r).1 {
            1int
        } else {
            0int
        }),
{
}

/// For one such instruction, a state in which the index crosses a page
/// costs exactly one cycle more than a state in which it does not.
pub proof fn lemma_page_crossing_costs_one_cycle(
    opcode: OpCode,
    crossing_r: RegisterState,
    crossing_memory: Seq<u8>,
    r: RegisterState,
    memory: Seq<u8>,
)
    requires
        opcode.spec_reads_operand(),
        opcode.spec_info().mode == AddressingMode::AbsoluteX || opcode.spec_info().mode
            == AddressingMode::AbsoluteY || opcode.spec_info().mode == AddressingMode::IndirectY,
        opcode.spec_info().mode.spec_addr(crossing_memory, crossing_r).1,
        !opcode.spec_info().mode.spec_addr(memory, r).1,
    ensures
        opcode.spec_run(crossing_r, crossing_memory).cycles == opcode.spec_run(r, memory).cycles
            + 1,
{
}

/// An instruction with zero page,X or zero page,Y addressing takes its base
/// number of cycles whatever the index: wrapping within page zero costs
/// nothing.
pub proof fn lemma_zero_page_index_costs_nothing(
    opcode: OpCode,
    r: RegisterState,
    memory: Seq<u8>,
)
    requires
        opcode.spec_info().mode == AddressingMode::ZeroPageX || opcode.spec_info().mode
            == AddressingMode::ZeroPageY,
    ensures
        opcode.spec_run(r, memory).cycles == opcode.spec_info().cycles,
{
}

/// What an instruction leaves alone: the stack pointer always; the program
/// counter unless it is a branch; the memory unless it is a shift of a byte
/// in memory. It takes from 2 to 7 cycles, and never fewer than its base
/// cost.
pub proof fn lemma_run_frame(opcode: OpCode, r: RegisterState, memory: Seq<u8>)
    ensures
        opcode.spec_run(r, memory).registers.sp == r.sp,
        opcode.spec_info().mode != AddressingMode::Relative ==> opcode.spec_run(
            r,
            memory,
        ).registers.pc == r.pc,
        !(opcode is AslZeroPage || opcode is AslZeroPageX || opcode is AslAbs || opcode
            is AslAbsX) ==> opcode.spec_run(r, memory).memory == memory,
        opcode.spec_info().cycles <= opcode.spec_run(r, memory).cycles <= 7,
        2 <= opcode.spec_info().cycles,
{
}

/// Encoding an instruction and decoding the byte gives the instruction back.
pub proof fn lemma_decode_inverts_encode(opcode: OpCode)
    ensures
        OpCode::spec_from_byte(opcode.spec_info().byte) == Some(opcode),
{
}

/// Every byte decodes: either to the one instruction that it encodes, or to
/// none because no instruction is encoded by it.
pub proof fn lemma_decode_is_total(byte: u8)
    ensures
        match OpCode::spec_from_byte(byte) {
            Some(opcode) => opcode.spec_info().byte == byte,
            None => forall|opcode: OpCode| #[trigger] opcode.spec_info().byte != byte,
        },
{
}

} // verus!
