//! What holds of every input, tried on concrete values, and the edge cases
//! of the address arithmetic.

use rp2a03::cpu::{Memory, Registers, RP2A03};
use rp2a03::opcode::adc::adc;
use rp2a03::opcode::and::and;
use rp2a03::opcode::asl::{asl, asl_register_a};
use rp2a03::opcode::bcc::bcc;
use rp2a03::opcode::beq::{beq, beq_relative};
use rp2a03::opcode::bit::bit;
use rp2a03::opcode::bne::bne;
use rp2a03::opcode::clc::{clc, clc_implied};
use rp2a03::opcode::cld::cld;
use rp2a03::opcode::cli::cli;
use rp2a03::opcode::clv::clv;
use rp2a03::opcode::lda::lda;
use rp2a03::opcode::ldx::ldx;
use rp2a03::opcode::ldy::ldy;
use rp2a03::opcode::sec::sec;
use rp2a03::opcode::sed::sed;
use rp2a03::opcode::sei::sei;
use rp2a03::opcode::utils::mem;
use rp2a03::opcode::utils::{rel_addr, set_carry, set_overflow, set_sign, set_zero};
use rp2a03::opcode::{AddressingMode, Cycle, IllegalOpcode, OpCode};

const ALL_OPCODES: [OpCode; 57] = [
    OpCode::AdcImm,
    OpCode::AdcZeroPage,
    OpCode::AdcZeroPageX,
    OpCode::AdcAbs,
    OpCode::AdcAbsX,
    OpCode::AdcAbsY,
    OpCode::AdcIndirectX,
    OpCode::AdcIndirectY,
    OpCode::AndImm,
    OpCode::AndZeroPage,
    OpCode::AndZeroPageX,
    OpCode::AndAbs,
    OpCode::AndAbsX,
    OpCode::AndAbsY,
    OpCode::AndIndirectX,
    OpCode::AndIndirectY,
    OpCode::AslAcc,
    OpCode::AslZeroPage,
    OpCode::AslZeroPageX,
    OpCode::AslAbs,
    OpCode::AslAbsX,
    OpCode::Bcc,
    OpCode::Bcs,
    OpCode::Beq,
    OpCode::Bmi,
    OpCode::Bne,
    OpCode::Bpl,
    OpCode::Bvc,
    OpCode::Bvs,
    OpCode::BitZeroPage,
    OpCode::BitAbs,
    OpCode::Clc,
    OpCode::Cld,
    OpCode::Cli,
    OpCode::Clv,
    OpCode::LdaImm,
    OpCode::LdaZeroPage,
    OpCode::LdaZeroPageX,
    OpCode::LdaAbs,
    OpCode::LdaAbsX,
    OpCode::LdaAbsY,
    OpCode::LdaIndirectX,
    OpCode::LdaIndirectY,
    OpCode::LdxImm,
    OpCode::LdxZeroPage,
    OpCode::LdxZeroPageY,
    OpCode::LdxAbs,
    OpCode::LdxAbsY,
    OpCode::LdyImm,
    OpCode::LdyZeroPage,
    OpCode::LdyZeroPageX,
    OpCode::LdyAbs,
    OpCode::LdyAbsX,
    OpCode::Nop,
    OpCode::Sec,
    OpCode::Sed,
    OpCode::Sei,
];

fn registers_with_flags(carry: bool, overflow: bool, decimal: bool, interrupt: bool) -> Registers {
    let mut registers = Registers::new();
    registers.set_carry_flag(carry);
    registers.set_overflow_flag(overflow);
    registers.set_decimal_mode_flag(decimal);
    registers.set_interrupt_disable_flag(interrupt);
    registers
}

#[test]
fn registers_after_reset() {
    let registers = Registers::new();
    assert_eq!(registers.a, 0);
    assert_eq!(registers.x, 0);
    assert_eq!(registers.y, 0);
    assert_eq!(registers.pc, 0);
    assert_eq!(registers.sp, 0);
    assert_eq!(registers.p(), 0b00100000);
    assert!(!registers.carry_flag());
    assert!(!registers.zero_flag());
    assert!(!registers.interrupt_disable_flag());
    assert!(!registers.decimal_mode_flag());
    assert!(!registers.break_command_flag());
    assert!(!registers.overflow_flag());
    assert!(!registers.sign_flag());
}

#[test]
fn each_flag_has_its_bit_in_the_status_byte() {
    let mut registers = Registers::new();
    registers.set_carry_flag(true);
    assert_eq!(registers.p(), 0b00100001);
    registers.set_zero_flag(true);
    assert_eq!(registers.p(), 0b00100011);
    registers.set_interrupt_disable_flag(true);
    assert_eq!(registers.p(), 0b00100111);
    registers.set_decimal_mode_flag(true);
    assert_eq!(registers.p(), 0b00101111);
    registers.set_break_command_flag(true);
    assert_eq!(registers.p(), 0b00111111);
    registers.set_overflow_flag(true);
    assert_eq!(registers.p(), 0b01111111);
    registers.set_sign_flag(true);
    assert_eq!(registers.p(), 0b11111111);
    assert!(registers.carry_flag() && registers.zero_flag() && registers.sign_flag());

    registers.set_zero_flag(false);
    assert_eq!(registers.p(), 0b11111101);
    assert!(!registers.zero_flag());
    registers.set_sign_flag(false);
    registers.set_overflow_flag(false);
    registers.set_break_command_flag(false);
    registers.set_decimal_mode_flag(false);
    registers.set_interrupt_disable_flag(false);
    registers.set_carry_flag(false);
    assert_eq!(registers, Registers::new());
}

#[test]
fn the_unused_bit_stays_set() {
    let mut cpu = RP2A03::new();
    let program = [
        OpCode::Sec,
        OpCode::Sed,
        OpCode::Sei,
        OpCode::LdaImm,
        OpCode::AdcImm,
        OpCode::AndImm,
        OpCode::AslAcc,
        OpCode::BitZeroPage,
        OpCode::Clc,
        OpCode::Cld,
        OpCode::Cli,
        OpCode::Clv,
        OpCode::Nop,
    ];
    let mut addr: u16 = 0;
    for opcode in program.iter() {
        cpu.memory.write(addr, (*opcode).into());
        cpu.memory.write(addr + 1, 0xFF);
        addr += 1 + opcode.operands_num() as u16;
    }
    for _ in program.iter() {
        cpu.step().unwrap();
        assert_eq!(cpu.registers.p() & 0b00100000, 0b00100000);
    }
    assert_eq!(cpu.registers.pc, addr);
}

#[test]
fn a_load_sets_zero_and_sign_and_no_other_flag() {
    let loads: [(fn(&mut Registers, u8), fn(&Registers) -> u8); 3] =
        [(lda, |r| r.a), (ldx, |r| r.x), (ldy, |r| r.y)];
    for (load, register) in loads.iter() {
        for flags in 0..16u8 {
            for v in 0..=255u8 {
                let mut registers = registers_with_flags(
                    flags & 1 != 0,
                    flags & 2 != 0,
                    flags & 4 != 0,
                    flags & 8 != 0,
                );
                let before = registers.clone();
                load(&mut registers, v);
                assert_eq!(register(&registers), v);
                assert_eq!(registers.zero_flag(), v == 0);
                assert_eq!(registers.sign_flag(), v & 0x80 != 0);
                assert_eq!(registers.carry_flag(), before.carry_flag());
                assert_eq!(registers.overflow_flag(), before.overflow_flag());
                assert_eq!(registers.decimal_mode_flag(), before.decimal_mode_flag());
                assert_eq!(registers.interrupt_disable_flag(), before.interrupt_disable_flag());
                assert_eq!(registers.break_command_flag(), before.break_command_flag());
                assert_eq!(registers.pc, before.pc);
                assert_eq!(registers.sp, before.sp);
            }
        }
    }
}

#[test]
fn a_load_touches_one_register() {
    let mut registers = Registers::new();
    registers.a = 1;
    registers.x = 2;
    registers.y = 3;
    lda(&mut registers, 0x10);
    assert_eq!((registers.a, registers.x, registers.y), (0x10, 2, 3));
    ldx(&mut registers, 0x20);
    assert_eq!((registers.a, registers.x, registers.y), (0x10, 0x20, 3));
    ldy(&mut registers, 0x30);
    assert_eq!((registers.a, registers.x, registers.y), (0x10, 0x20, 0x30));
}

#[test]
fn adc_of_0x7f_and_1_overflows() {
    let mut registers = Registers::new();
    registers.a = 0x7F;
    adc(&mut registers, 0x01);
    assert_eq!(registers.a, 0x80);
    assert!(!registers.zero_flag());
    assert!(registers.sign_flag());
    assert!(registers.overflow_flag());
    assert!(!registers.carry_flag());
}

#[test]
fn adc_of_1_and_0xff_carries() {
    let mut registers = Registers::new();
    registers.a = 0x01;
    adc(&mut registers, 0xFF);
    assert_eq!(registers.a, 0x00);
    assert!(registers.zero_flag());
    assert!(registers.carry_flag());
    assert!(!registers.overflow_flag());
    assert!(!registers.sign_flag());
}

#[test]
fn adc_adds_the_carry_flag() {
    let mut registers = Registers::new();
    registers.a = 0x10;
    registers.set_carry_flag(true);
    adc(&mut registers, 0x20);
    assert_eq!(registers.a, 0x31);
    assert!(!registers.carry_flag());

    let mut registers = Registers::new();
    registers.a = 0xFF;
    registers.set_carry_flag(true);
    adc(&mut registers, 0xFF);
    assert_eq!(registers.a, 0xFF);
    assert!(registers.carry_flag());
    assert!(registers.sign_flag());
    assert!(!registers.overflow_flag());
}

#[test]
fn adc_on_every_input() {
    for a in 0..=255u8 {
        for b in 0..=255u8 {
            for carry_in in 0..2u16 {
                let mut registers = Registers::new();
                registers.a = a;
                registers.x = 0x11;
                registers.y = 0x22;
                registers.set_carry_flag(carry_in == 1);
                registers.set_decimal_mode_flag(b & 1 == 1);
                adc(&mut registers, b);
                let sum = a as u16 + b as u16 + carry_in;
                let result = (sum % 256) as u8;
                assert_eq!(registers.a, result);
                assert_eq!(registers.carry_flag(), sum > 255);
                assert_eq!(
                    registers.overflow_flag(),
                    (a & 0x80) == (b & 0x80) && (result & 0x80) != (a & 0x80)
                );
                assert_eq!(registers.zero_flag(), result == 0);
                assert_eq!(registers.sign_flag(), result & 0x80 != 0);
                assert_eq!(registers.decimal_mode_flag(), b & 1 == 1);
                assert!(!registers.interrupt_disable_flag());
                assert_eq!((registers.x, registers.y, registers.pc), (0x11, 0x22, 0));
            }
        }
    }
}

#[test]
fn and_on_every_input() {
    for a in 0..=255u8 {
        for b in 0..=255u8 {
            let mut registers = registers_with_flags(a & 1 == 1, b & 1 == 1, false, true);
            registers.a = a;
            and(&mut registers, b);
            assert_eq!(registers.a, a & b);
            assert_eq!(registers.zero_flag(), a & b == 0);
            assert_eq!(registers.sign_flag(), a & b & 0x80 != 0);
            assert_eq!(registers.carry_flag(), a & 1 == 1);
            assert_eq!(registers.overflow_flag(), b & 1 == 1);
        }
    }
}

#[test]
fn bit_on_every_input() {
    for a in 0..=255u8 {
        for b in 0..=255u8 {
            let mut registers = registers_with_flags(a & 1 == 1, true, false, true);
            registers.a = a;
            bit(&mut registers, b);
            assert_eq!(registers.a, a);
            assert_eq!(registers.zero_flag(), a & b == 0);
            assert_eq!(registers.sign_flag(), b & 0x80 != 0);
            assert_eq!(registers.overflow_flag(), b & 0x40 != 0);
            assert_eq!(registers.carry_flag(), a & 1 == 1);
        }
    }
}

#[test]
fn asl_of_0b10000001() {
    let mut registers = Registers::new();
    let result = asl(&mut registers, 0b10000001);
    assert_eq!(result, 0b00000010);
    assert!(registers.carry_flag());
    assert!(!registers.zero_flag());
    assert!(!registers.sign_flag());
}

#[test]
fn asl_on_every_input() {
    for v in 0..=255u8 {
        let mut registers = registers_with_flags(v & 1 == 0, true, true, false);
        let result = asl(&mut registers, v);
        assert_eq!(result as u16, ((v as u16) << 1) & 0xFF);
        assert_eq!(result & 1, 0);
        assert_eq!(registers.carry_flag(), v & 0x80 != 0);
        assert_eq!(registers.zero_flag(), result == 0);
        assert_eq!(registers.sign_flag(), result & 0x80 != 0);
        assert!(registers.overflow_flag());
        assert!(registers.decimal_mode_flag());
        assert_eq!(registers.a, 0);
    }
}

#[test]
fn asl_of_the_accumulator() {
    let mut registers = Registers::new();
    let mut memory = Memory::new();
    registers.a = 0b11000000;
    let Cycle(cycles) = asl_register_a(&mut registers, &mut memory);
    assert_eq!(cycles, 2);
    assert_eq!(registers.a, 0b10000000);
    assert!(registers.carry_flag());
    assert!(registers.sign_flag());
    assert!(memory == Memory::new());
}

#[test]
fn asl_of_a_byte_in_memory() {
    // (opcode, cycles, operand bytes, X, address of the byte)
    let cases: [(OpCode, u32, [u8; 2], u8, u16); 5] = [
        (OpCode::AslZeroPage, 5, [0x40, 0x00], 0, 0x0040),
        (OpCode::AslZeroPageX, 6, [0xFF, 0x00], 2, 0x0001),
        (OpCode::AslAbs, 6, [0x34, 0x12], 0, 0x1234),
        (OpCode::AslAbsX, 7, [0x01, 0x04], 1, 0x0402),
        (OpCode::AslAbsX, 7, [0xFF, 0x04], 1, 0x0500),
    ];
    for (opcode, cycles, operands, x, addr) in cases.iter() {
        let mut cpu = RP2A03::new();
        cpu.registers.pc = 0x0200;
        cpu.registers.x = *x;
        cpu.registers.a = 0x55;
        cpu.memory.write(0x0200, (*opcode).into());
        cpu.memory.write(0x0201, operands[0]);
        cpu.memory.write(0x0202, operands[1]);
        cpu.memory.write(*addr, 0b10100001);
        let mut expected_memory = cpu.memory.clone();
        expected_memory.write(*addr, 0b01000010);

        let Cycle(taken) = cpu.execute();

        assert_eq!(taken, *cycles);
        assert!(cpu.memory == expected_memory);
        assert_eq!(cpu.memory.read(*addr), 0b01000010);
        assert!(cpu.registers.carry_flag());
        assert!(!cpu.registers.sign_flag());
        assert!(!cpu.registers.zero_flag());
        assert_eq!(cpu.registers.a, 0x55);
        assert_eq!(cpu.registers.pc, 0x0201 + opcode.operands_num() as u16);
    }
}

#[test]
fn a_branch_not_taken_costs_2_cycles() {
    let mut registers = Registers::new();
    registers.pc = 0x00F8;
    registers.set_carry_flag(true);
    let Cycle(cycles) = bcc(&mut registers, 0x10);
    assert_eq!(cycles, 2);
    assert_eq!(registers.pc, 0x00F8);

    let mut registers = Registers::new();
    registers.pc = 0x00F8;
    let Cycle(cycles) = beq(&mut registers, 0x10);
    assert_eq!(cycles, 2);
    assert_eq!(registers.pc, 0x00F8);
}

#[test]
fn a_branch_taken_on_the_same_page_costs_3_cycles() {
    let mut registers = Registers::new();
    registers.pc = 0x00C0;
    let Cycle(cycles) = bcc(&mut registers, 0x10);
    assert_eq!(cycles, 3);
    assert_eq!(registers.pc, 0x00D0);
}

#[test]
fn a_branch_taken_onto_another_page_costs_4_cycles() {
    let mut registers = Registers::new();
    registers.pc = 0x00F8;
    let Cycle(cycles) = bcc(&mut registers, 0x10);
    assert_eq!(cycles, 4);
    assert_eq!(registers.pc, 0x0108);

    // Backwards onto the page before.
    let mut registers = Registers::new();
    registers.pc = 0x0105;
    let Cycle(cycles) = bne(&mut registers, 0xF0);
    assert_eq!(cycles, 4);
    assert_eq!(registers.pc, 0x00F5);
}

#[test]
fn a_branch_changes_nothing_but_the_program_counter() {
    let mut registers = registers_with_flags(false, true, true, true);
    registers.a = 1;
    registers.x = 2;
    registers.y = 3;
    registers.sp = 4;
    registers.pc = 0x1000;
    let mut expected = registers.clone();
    bcc(&mut registers, 0x7F);
    expected.pc = 0x107F;
    assert_eq!(registers, expected);
}

#[test]
fn beq_branches_on_the_zero_flag() {
    let mut registers = Registers::new();
    registers.pc = 12345;
    registers.set_zero_flag(true);
    let Cycle(cycles) = beq(&mut registers, 0x81);
    assert_eq!(registers.pc, 12345 - 127);
    assert_eq!(cycles, 4);

    let mut cpu = RP2A03::new();
    cpu.registers.pc = 0x0300;
    cpu.registers.set_zero_flag(true);
    cpu.memory.write(0x0300, OpCode::Beq.into());
    cpu.memory.write(0x0301, 0x05);
    let Cycle(cycles) = beq_relative(&mut cpu.registers, &mut cpu.memory);
    assert_eq!(cycles, 3);
    assert_eq!(cpu.registers.pc, 0x0305);
}

#[test]
fn a_displacement_is_a_twos_complement_byte() {
    assert_eq!(rel_addr(0x1000, 0x00), (0x1000, false));
    assert_eq!(rel_addr(0x1000, 0x01), (0x1001, false));
    assert_eq!(rel_addr(0x1000, 0x7F), (0x107F, false));
    assert_eq!(rel_addr(0x1000, 0xFF), (0x0FFF, true));
    assert_eq!(rel_addr(0x1000, 0x81), (0x1000 - 127, true));
    assert_eq!(rel_addr(0x1000, 0x80), (0x1000 - 128, true));
    assert_eq!(rel_addr(0x1080, 0x80), (0x1000, false));
    assert_eq!(rel_addr(0x10FF, 0x01), (0x1100, true));
}

#[test]
fn a_branch_target_wraps_around_the_address_space() {
    assert_eq!(rel_addr(0x0000, 0xFF), (0xFFFF, true));
    assert_eq!(rel_addr(0x0000, 0x80), (0xFF80, true));
    assert_eq!(rel_addr(0xFFFF, 0x01), (0x0000, true));
    assert_eq!(rel_addr(0xFFF0, 0x7F), (0x006F, true));
}

#[test]
fn the_program_counter_after_a_taken_branch() {
    // The branch at $00C0 is followed by the instruction at $00C2; a
    // displacement of +$10 from there ends at $00D2.
    let mut cpu = RP2A03::new();
    cpu.registers.pc = 0x00C0;
    cpu.memory.write(0x00C0, OpCode::Bcc.into());
    cpu.memory.write(0x00C1, 0x10);
    let Cycle(cycles) = cpu.execute();
    assert_eq!(cycles, 3);
    assert_eq!(cpu.registers.pc, 0x00D2);

    let mut cpu = RP2A03::new();
    cpu.registers.pc = 0x00F8;
    cpu.memory.write(0x00F8, OpCode::Bcc.into());
    cpu.memory.write(0x00F9, 0x10);
    let Cycle(cycles) = cpu.execute();
    assert_eq!(cycles, 4);
    assert_eq!(cpu.registers.pc, 0x010A);

    // Backwards by 2: the branch jumps to itself.
    let mut cpu = RP2A03::new();
    cpu.registers.pc = 0x0400;
    cpu.memory.write(0x0400, OpCode::Bne.into());
    cpu.memory.write(0x0401, 0xFE);
    let Cycle(cycles) = cpu.execute();
    assert_eq!(cycles, 4);
    assert_eq!(cpu.registers.pc, 0x0400);
}

#[test]
fn the_program_counter_after_a_branch_not_taken() {
    let mut cpu = RP2A03::new();
    cpu.registers.pc = 0x00C0;
    cpu.registers.set_carry_flag(true);
    cpu.memory.write(0x00C0, OpCode::Bcc.into());
    cpu.memory.write(0x00C1, 0x10);
    let Cycle(cycles) = cpu.execute();
    assert_eq!(cycles, 2);
    assert_eq!(cpu.registers.pc, 0x00C2);
}

#[test]
fn every_branch_follows_its_flag() {
    // (opcode, sets its flag, branches when the flag is set)
    let cases: [(OpCode, fn(&mut Registers, bool), bool); 8] = [
        (OpCode::Bcc, Registers::set_carry_flag, false),
        (OpCode::Bcs, Registers::set_carry_flag, true),
        (OpCode::Beq, Registers::set_zero_flag, true),
        (OpCode::Bne, Registers::set_zero_flag, false),
        (OpCode::Bmi, Registers::set_sign_flag, true),
        (OpCode::Bpl, Registers::set_sign_flag, false),
        (OpCode::Bvs, Registers::set_overflow_flag, true),
        (OpCode::Bvc, Registers::set_overflow_flag, false),
    ];
    for (opcode, set_flag, when_set) in cases.iter() {
        for flag in [false, true] {
            let mut cpu = RP2A03::new();
            cpu.registers.pc = 0x0210;
            set_flag(&mut cpu.registers, flag);
            cpu.memory.write(0x0210, (*opcode).into());
            cpu.memory.write(0x0211, 0x20);
            let Cycle(cycles) = cpu.execute();
            if flag == *when_set {
                assert_eq!(cpu.registers.pc, 0x0232);
                assert_eq!(cycles, 3);
            } else {
                assert_eq!(cpu.registers.pc, 0x0212);
                assert_eq!(cycles, 2);
            }
        }
    }
}

#[test]
fn an_index_that_crosses_a_page() {
    let mut cpu = RP2A03::new();
    cpu.memory.write(1, 0xFF);
    cpu.memory.write(2, 0x04);
    cpu.registers.x = 0x01;
    cpu.registers.y = 0x01;
    assert_eq!(mem::get_abs_x_addr(&cpu.memory, &cpu.registers), (0x0500, true));
    assert_eq!(mem::get_abs_y_addr(&cpu.memory, &cpu.registers), (0x0500, true));

    cpu.memory.write(1, 0x01);
    assert_eq!(mem::get_abs_x_addr(&cpu.memory, &cpu.registers), (0x0402, false));
    assert_eq!(mem::get_abs_y_addr(&cpu.memory, &cpu.registers), (0x0402, false));

    // The sum of low byte and index is exactly 0xFF: no carry.
    cpu.memory.write(1, 0xFE);
    assert_eq!(mem::get_abs_x_addr(&cpu.memory, &cpu.registers), (0x04FF, false));
    // Index 0 never crosses.
    cpu.memory.write(1, 0xFF);
    cpu.registers.x = 0;
    assert_eq!(mem::get_abs_x_addr(&cpu.memory, &cpu.registers), (0x04FF, false));
    // From the last page the address wraps to the first.
    cpu.memory.write(2, 0xFF);
    cpu.registers.x = 0x02;
    assert_eq!(mem::get_abs_x_addr(&cpu.memory, &cpu.registers), (0x0001, true));
}

#[test]
fn a_crossed_page_costs_one_cycle() {
    // (opcode, uses X)
    let cases: [(OpCode, bool, u32); 8] = [
        (OpCode::AdcAbsX, true, 4),
        (OpCode::AdcAbsY, false, 4),
        (OpCode::AndAbsX, true, 4),
        (OpCode::AndAbsY, false, 4),
        (OpCode::LdaAbsX, true, 4),
        (OpCode::LdaAbsY, false, 4),
        (OpCode::LdxAbsY, false, 4),
        (OpCode::LdyAbsX, true, 4),
    ];
    for (opcode, uses_x, base) in cases.iter() {
        let run = |low: u8| {
            let mut cpu = RP2A03::new();
            cpu.memory.write(0, (*opcode).into());
            cpu.memory.write(1, low);
            cpu.memory.write(2, 0x04);
            if *uses_x {
                cpu.registers.x = 0x01;
            } else {
                cpu.registers.y = 0x01;
            }
            let Cycle(cycles) = cpu.execute();
            assert_eq!(cpu.registers.pc, 3);
            cycles
        };
        let not_crossing = run(0x01);
        let crossing = run(0xFF);
        assert_eq!(not_crossing, *base);
        assert_eq!(crossing, not_crossing + 1);
        assert_eq!(opcode.cycles_num() as u32, *base);
    }
    for opcode in [OpCode::AdcIndirectY, OpCode::AndIndirectY, OpCode::LdaIndirectY] {
        let run = |low: u8| {
            let mut cpu = RP2A03::new();
            cpu.memory.write(0, opcode.into());
            cpu.memory.write(1, 0x90);
            cpu.memory.write(0x0090, low);
            cpu.memory.write(0x0091, 0x12);
            cpu.registers.y = 0x01;
            let Cycle(cycles) = cpu.execute();
            assert_eq!(cpu.registers.pc, 2);
            cycles
        };
        assert_eq!(run(0x33), 5);
        assert_eq!(run(0xFF), 6);
    }
}

#[test]
fn zero_page_indexing_wraps_within_page_zero() {
    let mut cpu = RP2A03::new();
    cpu.registers.pc = 0x0200;
    cpu.memory.write(0x0201, 0xFF);
    cpu.registers.x = 0x02;
    cpu.registers.y = 0x03;
    assert_eq!(mem::get_zero_page_x_addr(&cpu.memory, &cpu.registers), 0x0001);
    assert_eq!(mem::get_zero_page_y_addr(&cpu.memory, &cpu.registers), 0x0002);

    cpu.memory.write(0x0001, 0x77);
    cpu.memory.write(0x0101, 0x99);
    assert_eq!(mem::read_zero_page_x(&cpu.memory, &cpu.registers), 0x77);
}

#[test]
fn wrapping_within_page_zero_costs_nothing() {
    for (opcode, cycles) in [
        (OpCode::LdaZeroPageX, 4),
        (OpCode::AdcZeroPageX, 4),
        (OpCode::AndZeroPageX, 4),
        (OpCode::LdyZeroPageX, 4),
        (OpCode::LdxZeroPageY, 4),
        (OpCode::AslZeroPageX, 6),
    ] {
        let run = |base: u8| {
            let mut cpu = RP2A03::new();
            cpu.memory.write(0, opcode.into());
            cpu.memory.write(1, base);
            cpu.registers.x = 0x02;
            cpu.registers.y = 0x02;
            let Cycle(cycles) = cpu.execute();
            cycles
        };
        assert_eq!(run(0x10), cycles);
        assert_eq!(run(0xFF), cycles);
    }
}

#[test]
fn indirect_x_wraps_within_page_zero() {
    // The pointer itself wraps: $FE + 3 = $01.
    let mut cpu = RP2A03::new();
    cpu.registers.pc = 0x0200;
    cpu.memory.write(0x0201, 0xFE);
    cpu.registers.x = 0x03;
    cpu.memory.write(0x0001, 0x34);
    cpu.memory.write(0x0002, 0x12);
    assert_eq!(mem::get_indirect_x_addr(&cpu.memory, &cpu.registers), 0x1234);

    // The high byte of the address is read from $00 when the pointer is $FF.
    let mut cpu = RP2A03::new();
    cpu.registers.pc = 0x0200;
    cpu.memory.write(0x0201, 0xFE);
    cpu.registers.x = 0x01;
    cpu.memory.write(0x00FF, 0x78);
    cpu.memory.write(0x0000, 0x56);
    cpu.memory.write(0x0100, 0x99);
    cpu.memory.write(0x5678, 0x42);
    assert_eq!(mem::get_indirect_x_addr(&cpu.memory, &cpu.registers), 0x5678);
    assert_eq!(mem::read_indirect_x(&cpu.memory, &cpu.registers), 0x42);
}

#[test]
fn indirect_y_reads_its_base_after_the_pointer() {
    let mut cpu = RP2A03::new();
    cpu.memory.write(1, 0x90);
    cpu.memory.write(0x0090, 0x33);
    cpu.memory.write(0x0091, 0x12);
    cpu.registers.y = 0x01;
    assert_eq!(mem::get_indirect_y_addr(&cpu.memory, &cpu.registers), (0x1234, false));
    cpu.memory.write(0x0090, 0xFF);
    assert_eq!(mem::get_indirect_y_addr(&cpu.memory, &cpu.registers), (0x1300, true));

    // For the pointer $FF the high byte of the base lies at $0100.
    let mut cpu = RP2A03::new();
    cpu.registers.pc = 0x0200;
    cpu.memory.write(0x0201, 0xFF);
    cpu.memory.write(0x00FF, 0x10);
    cpu.memory.write(0x0100, 0x20);
    cpu.memory.write(0x0000, 0x30);
    cpu.registers.y = 0x05;
    assert_eq!(mem::get_indirect_y_addr(&cpu.memory, &cpu.registers), (0x2015, false));
}

#[test]
fn the_other_addressing_modes() {
    let mut cpu = RP2A03::new();
    cpu.registers.pc = 0x0300;
    cpu.memory.write(0x0301, 0x34);
    cpu.memory.write(0x0302, 0x12);
    cpu.memory.write(0x0034, 0xAA);
    cpu.memory.write(0x1234, 0xBB);
    assert_eq!(mem::get_imm_addr(&cpu.memory, &cpu.registers), 0x0301);
    assert_eq!(mem::read_imm(&cpu.memory, &cpu.registers), 0x34);
    assert_eq!(mem::read_rel(&cpu.memory, &cpu.registers), 0x34);
    assert_eq!(mem::get_zero_page_addr(&cpu.memory, &cpu.registers), 0x0034);
    assert_eq!(mem::read_zero_page(&cpu.memory, &cpu.registers), 0xAA);
    assert_eq!(mem::get_abs_addr(&cpu.memory, &cpu.registers), 0x1234);
    assert_eq!(mem::read_abs(&cpu.memory, &cpu.registers), 0xBB);
    assert_eq!(mem::read_abs_x(&cpu.memory, &cpu.registers), (0xBB, false));
    assert_eq!(mem::read_abs_y(&cpu.memory, &cpu.registers), (0xBB, false));
    assert_eq!(mem::read_zero_page_y(&cpu.memory, &cpu.registers), 0xAA);
}

#[test]
fn operands_at_the_end_of_the_address_space() {
    let mut cpu = RP2A03::new();
    cpu.registers.pc = 0xFFFF;
    cpu.memory.write(0xFFFF, OpCode::LdaAbs.into());
    cpu.memory.write(0x0000, 0x34);
    cpu.memory.write(0x0001, 0x12);
    cpu.memory.write(0x1234, 0x42);
    assert_eq!(mem::get_imm_addr(&cpu.memory, &cpu.registers), 0x0000);
    assert_eq!(mem::get_abs_addr(&cpu.memory, &cpu.registers), 0x1234);
    let Cycle(cycles) = cpu.execute();
    assert_eq!(cycles, 4);
    assert_eq!(cpu.registers.a, 0x42);
    assert_eq!(cpu.registers.pc, 0x0002);
}

#[test]
fn a_byte_written_is_the_byte_read() {
    let mut memory = Memory::new();
    for addr in 0..=0xFFFFu16 {
        assert_eq!(memory.read(addr), 0);
    }
    for addr in 0..=0xFFFFu16 {
        let val = (addr % 251) as u8 ^ (addr >> 8) as u8;
        memory.write(addr, val);
        assert_eq!(memory.read(addr), val);
    }
    for addr in 0..=0xFFFFu16 {
        assert_eq!(memory.read(addr), (addr % 251) as u8 ^ (addr >> 8) as u8);
    }
    for val in 0..=255u8 {
        memory.write(0xFFFF, val);
        assert_eq!(memory.read(0xFFFF), val);
        assert_eq!(memory.read(0xFFFE), (0xFFFEu16 % 251) as u8 ^ 0xFF);
        assert_eq!(memory.read(0x0000), 0);
    }
}

#[test]
fn clearing_a_flag_twice_is_clearing_it_once() {
    let instructions: [fn(&mut Registers); 7] = [clc, cld, cli, clv, sec, sed, sei];
    for instruction in instructions.iter() {
        for flags in 0..16u8 {
            let mut once = registers_with_flags(
                flags & 1 != 0,
                flags & 2 != 0,
                flags & 4 != 0,
                flags & 8 != 0,
            );
            let mut twice = once.clone();
            instruction(&mut once);
            instruction(&mut twice);
            instruction(&mut twice);
            assert_eq!(once, twice);
        }
    }
}

#[test]
fn a_flag_instruction_changes_one_flag() {
    let mut registers = Registers::new();
    registers.a = 9;
    sec(&mut registers);
    assert_eq!(registers.p(), 0b00100001);
    sed(&mut registers);
    assert_eq!(registers.p(), 0b00101001);
    sei(&mut registers);
    assert_eq!(registers.p(), 0b00101101);
    registers.set_overflow_flag(true);
    clc(&mut registers);
    assert_eq!(registers.p(), 0b01101100);
    cld(&mut registers);
    assert_eq!(registers.p(), 0b01100100);
    cli(&mut registers);
    assert_eq!(registers.p(), 0b01100000);
    clv(&mut registers);
    assert_eq!(registers.p(), 0b00100000);
    assert_eq!(registers.a, 9);

    let mut memory = Memory::new();
    registers.set_carry_flag(true);
    let Cycle(cycles) = clc_implied(&mut registers, &mut memory);
    assert_eq!(cycles, 2);
    assert_eq!(registers.p(), 0b00100000);
}

#[test]
fn the_flag_rules() {
    let mut registers = Registers::new();
    set_zero(&mut registers, 0x0100);
    assert!(registers.zero_flag());
    set_zero(&mut registers, 0x0001);
    assert!(!registers.zero_flag());
    set_sign(&mut registers, 0x0080);
    assert!(registers.sign_flag());
    set_sign(&mut registers, 0x017F);
    assert!(!registers.sign_flag());
    set_carry(&mut registers, 0x0100);
    assert!(registers.carry_flag());
    set_carry(&mut registers, 0x00FF);
    assert!(!registers.carry_flag());
    set_overflow(&mut registers, 0x7F, 0x01, 0x0080);
    assert!(registers.overflow_flag());
    set_overflow(&mut registers, 0x80, 0x80, 0x0100);
    assert!(registers.overflow_flag());
    set_overflow(&mut registers, 0x7F, 0x81, 0x0100);
    assert!(!registers.overflow_flag());
    set_overflow(&mut registers, 0x01, 0x01, 0x0002);
    assert!(!registers.overflow_flag());

    let mut once = Registers::new();
    set_zero(&mut once, 0);
    let mut twice = once.clone();
    set_zero(&mut twice, 0);
    assert_eq!(once, twice);
}

#[test]
fn every_byte_decodes() {
    let mut defined = 0;
    for byte in 0..=255u8 {
        match OpCode::from_byte(byte) {
            Ok(opcode) => {
                defined += 1;
                assert_eq!(u8::from(opcode), byte);
                assert_eq!(opcode.info().byte, byte);
                assert!(ALL_OPCODES.contains(&opcode));
            }
            Err(illegal) => {
                assert_eq!(illegal, IllegalOpcode(byte));
                assert!(ALL_OPCODES.iter().all(|opcode| u8::from(*opcode) != byte));
            }
        }
    }
    assert_eq!(defined, ALL_OPCODES.len());
}

#[test]
fn every_opcode_encodes() {
    for opcode in ALL_OPCODES.iter() {
        let byte: u8 = (*opcode).into();
        assert_eq!(OpCode::from_byte(byte), Ok(*opcode));
    }
    assert_eq!(u8::from(OpCode::LdaImm), 0xA9);
    assert_eq!(u8::from(OpCode::Nop), 0xEA);
    assert_eq!(u8::from(OpCode::AdcImm), 0x69);
    assert_eq!(u8::from(OpCode::Bvc), 0x50);
    assert_eq!(u8::from(OpCode::Bvs), 0x70);
    assert_eq!(OpCode::from_byte(0xFF), Err(IllegalOpcode(0xFF)));
    assert_eq!(OpCode::from_byte(0x02), Err(IllegalOpcode(0x02)));
}

#[test]
fn the_table_entry_of_every_opcode() {
    for opcode in ALL_OPCODES.iter() {
        let info = opcode.info();
        assert_eq!(opcode.mode(), info.mode);
        assert_eq!(opcode.cycles_num(), info.cycles);
        assert_eq!(opcode.operands_num(), info.mode.operands_num());
        let expected = match info.mode {
            AddressingMode::Implied | AddressingMode::Accumulator => 0,
            AddressingMode::Absolute | AddressingMode::AbsoluteX | AddressingMode::AbsoluteY => 2,
            _ => 1,
        };
        assert_eq!(opcode.operands_num(), expected);
        assert!(2 <= info.cycles && info.cycles <= 7);
    }
    assert_eq!(OpCode::LdaAbsX.operands_num(), 2);
    assert_eq!(OpCode::LdaAbsX.cycles_num(), 4);
    assert_eq!(OpCode::LdaAbsX.mode(), AddressingMode::AbsoluteX);
    assert_eq!(OpCode::LdaIndirectY.cycles_num(), 5);
    assert_eq!(OpCode::LdaIndirectX.cycles_num(), 6);
    assert_eq!(OpCode::AslAcc.operands_num(), 0);
    assert_eq!(OpCode::AslAbsX.cycles_num(), 7);
    assert_eq!(OpCode::Bcc.mode(), AddressingMode::Relative);
    assert_eq!(OpCode::Bcc.operands_num(), 1);
}

#[test]
fn an_illegal_opcode_is_reported_and_changes_nothing() {
    let mut cpu = RP2A03::new();
    cpu.registers.pc = 0x0123;
    cpu.registers.a = 7;
    cpu.registers.set_carry_flag(true);
    cpu.memory.write(0x0123, 0xFF);
    let registers = cpu.registers.clone();
    let memory = cpu.memory.clone();

    assert_eq!(cpu.step(), Err(IllegalOpcode(0xFF)));

    assert_eq!(cpu.registers, registers);
    assert!(cpu.memory == memory);
    assert_eq!(cpu.current_cycles, 0);
}

#[test]
fn step_on_every_opcode_byte() {
    for byte in 0..=255u8 {
        let mut cpu = RP2A03::new();
        cpu.registers.pc = 0x0400;
        cpu.memory.write(0x0400, byte);
        match (cpu.step(), OpCode::from_byte(byte)) {
            (Ok(Cycle(cycles)), Ok(opcode)) => {
                assert!(opcode.cycles_num() as u32 <= cycles && cycles <= 7);
                assert_eq!(cpu.current_cycles, cycles);
                if opcode.mode() != AddressingMode::Relative {
                    assert_eq!(cpu.registers.pc, 0x0401 + opcode.operands_num() as u16);
                }
            }
            (Err(illegal), Err(expected)) => {
                assert_eq!(illegal, expected);
                assert_eq!(cpu.registers.pc, 0x0400);
            }
            _ => panic!("step and the table disagree on {:#04x}", byte),
        }
    }
}

#[test]
fn a_new_processor() {
    let cpu = RP2A03::new();
    assert_eq!(cpu.registers, Registers::new());
    assert!(cpu.memory == Memory::new());
    assert_eq!(cpu.current_cycles, 0);
}

#[test]
fn the_cycles_add_up() {
    let mut cpu = RP2A03::new();
    cpu.memory.write(0, OpCode::LdaImm.into());
    cpu.memory.write(1, 0x7F);
    cpu.memory.write(2, OpCode::AdcAbsX.into());
    cpu.memory.write(3, 0xFF);
    cpu.memory.write(4, 0x04);
    cpu.memory.write(0x0500, 0x01);
    cpu.memory.write(5, OpCode::Bmi.into());
    cpu.memory.write(6, 0x02);
    cpu.memory.write(9, OpCode::AslAcc.into());
    cpu.memory.write(10, OpCode::Nop.into());
    cpu.registers.x = 1;

    assert_eq!(cpu.step(), Ok(Cycle(2)));
    assert_eq!(cpu.current_cycles, 2);
    assert_eq!(cpu.execute(), Cycle(5));
    assert_eq!(cpu.current_cycles, 7);
    assert_eq!(cpu.registers.a, 0x80);
    assert!(cpu.registers.overflow_flag());
    assert_eq!(cpu.step(), Ok(Cycle(3)));
    assert_eq!(cpu.registers.pc, 9);
    assert_eq!(cpu.current_cycles, 10);
    assert_eq!(cpu.step(), Ok(Cycle(2)));
    assert_eq!(cpu.registers.a, 0x00);
    assert!(cpu.registers.carry_flag());
    assert!(cpu.registers.zero_flag());
    assert_eq!(cpu.step(), Ok(Cycle(2)));
    assert_eq!(cpu.current_cycles, 14);
    assert_eq!(cpu.registers.pc, 11);
}

#[test]
fn the_running_total_wraps() {
    let mut cpu = RP2A03::new();
    cpu.memory.write(0, OpCode::Nop.into());
    cpu.current_cycles = u32::MAX;
    assert_eq!(cpu.execute(), Cycle(2));
    assert_eq!(cpu.current_cycles, 1);
}

#[test]
fn the_same_state_gives_the_same_step() {
    let mut first = RP2A03::new();
    first.memory.write(0, OpCode::AdcIndirectY.into());
    first.memory.write(1, 0x40);
    first.memory.write(0x0040, 0xF0);
    first.memory.write(0x0041, 0x20);
    first.memory.write(0x2100, 0x99);
    first.registers.y = 0x10;
    first.registers.a = 0x77;
    let mut second = RP2A03::new();
    second.memory = first.memory.clone();
    second.registers = first.registers.clone();

    assert_eq!(first.step(), second.step());
    assert_eq!(first.registers, second.registers);
    assert!(first.memory == second.memory);
    assert_eq!(first.registers.a, 0x10);
    assert_eq!(first.current_cycles, 6);
}
