//! Whole-step scenarios: programs placed in memory and run through `step`.

use mos6502::cpu::Cpu;
use mos6502::cpu::CpuError;
use mos6502::memory::MemoryOps;
use mos6502::instruction::Ops;

#[test]
fn step_adc_immediate_basic() {
    let mut cpu = Cpu::new();
    cpu.memory[0] = 0x69;
    cpu.memory[1] = 23;
    cpu.step().unwrap();
    assert_eq!(cpu.rega, 23);
    assert!(!cpu.flags.zero);
    assert!(!cpu.flags.carry);
    assert!(!cpu.flags.negative);
    assert_eq!(cpu.pc, 2);
}

#[test]
fn step_adc_immediate_overflow() {
    let mut cpu = Cpu::new();
    cpu.rega = 80;
    cpu.memory[0] = 0x69;
    cpu.memory[1] = 80;
    cpu.step().unwrap();
    assert_eq!(cpu.rega, 160);
    assert!(cpu.flags.overflow);
    assert!(cpu.flags.negative);
    assert!(!cpu.flags.carry);
}

#[test]
fn step_adc_immediate_carry_out() {
    let mut cpu = Cpu::new();
    cpu.rega = 255;
    cpu.memory[0] = 0x69;
    cpu.memory[1] = 5;
    cpu.step().unwrap();
    assert_eq!(cpu.rega, 4);
    assert!(cpu.flags.carry);
}

#[test]
fn step_adc_immediate_nine_bit_sum() {
    let mut cpu = Cpu::new();
    cpu.memory[0] = 0x69;
    cpu.memory[1] = 0xFF;
    cpu.flags.carry = true;
    cpu.step().unwrap();
    assert_eq!(cpu.rega, 0);
    assert!(cpu.flags.carry);
    assert!(cpu.flags.zero);
}

#[test]
fn step_sbc_borrow_edge() {
    let mut cpu = Cpu::new();
    cpu.rega = 5;
    cpu.memory[0] = 0xE9;
    cpu.memory[1] = 0xFF;
    cpu.step().unwrap();
    assert_eq!(cpu.rega, 5);
    assert!(!cpu.flags.carry);
}

#[test]
fn step_sbc_no_borrow_sets_carry() {
    let mut cpu = Cpu::new();
    cpu.rega = 30;
    cpu.memory[0] = 0xE9;
    cpu.memory[1] = 10;
    cpu.flags.carry = true;
    cpu.step().unwrap();
    assert_eq!(cpu.rega, 20);
    assert!(cpu.flags.carry);
    assert!(!cpu.flags.overflow);
}

#[test]
fn step_sbc_signed_overflow() {
    let mut cpu = Cpu::new();
    cpu.rega = 0x80;
    cpu.memory[0] = 0xE9;
    cpu.memory[1] = 0x01;
    cpu.flags.carry = true;
    cpu.step().unwrap();
    assert_eq!(cpu.rega, 0x7F);
    assert!(cpu.flags.carry);
    assert!(cpu.flags.overflow);
    assert!(!cpu.flags.negative);
}

#[test]
fn step_cmp_immediate_greater() {
    let mut cpu = Cpu::new();
    cpu.rega = 12;
    cpu.memory[0] = 0xC9;
    cpu.memory[1] = 10;
    cpu.step().unwrap();
    assert!(cpu.flags.carry);
    assert!(!cpu.flags.zero);
    assert!(!cpu.flags.negative);
}

#[test]
fn step_bit_zero_page_all_high() {
    let mut cpu = Cpu::new();
    cpu.memory[0] = 0x24;
    cpu.memory[1] = 10;
    cpu.memory[10] = 0xF0;
    cpu.rega = 0x0F;
    cpu.step().unwrap();
    assert!(cpu.flags.zero);
    assert!(cpu.flags.overflow);
    assert!(cpu.flags.negative);
    assert_eq!(cpu.rega, 0x0F);
}

#[test]
fn step_brk_vector() {
    let mut cpu = Cpu::new();
    cpu.memory[0xFFFE] = 0x98;
    cpu.memory[0xFFFF] = 0x45;
    cpu.pc = 0x3456;
    cpu.flags.carry = true;
    cpu.step().unwrap();
    assert_eq!(cpu.peek_stack(), 0x01);
    assert_eq!(cpu.memory[0x0100 + cpu.sp as usize + 2], 0x56);
    assert_eq!(cpu.memory[0x0100 + cpu.sp as usize + 3], 0x34);
    assert_eq!(cpu.pc, 0x4598);
    assert!(cpu.flags.break1 && cpu.flags.break2);
}

#[test]
fn step_jsr_rts_round_trip() {
    let mut cpu = Cpu::new();
    cpu.memory[0] = 0x20;
    cpu.memory[1] = 0x10;
    cpu.memory[2] = 0x00;
    cpu.memory[0x10] = 0x60;
    cpu.step().unwrap();
    assert_eq!(cpu.pc, 0x10);
    cpu.step().unwrap();
    assert_eq!(cpu.pc, 3);
    assert_eq!(cpu.sp, 0xFF);
}

#[test]
fn step_brk_rti_round_trip() {
    let mut cpu = Cpu::new();
    cpu.memory[0xFFFE] = 0x00;
    cpu.memory[0xFFFF] = 0x20;
    cpu.memory[0x2000] = 0x40;
    cpu.pc = 0x3456;
    cpu.flags.carry = true;
    cpu.flags.negative = true;
    cpu.step().unwrap();
    assert_eq!(cpu.pc, 0x2000);
    cpu.step().unwrap();
    assert_eq!(cpu.pc, 0x3456);
    assert_eq!(cpu.sp, 0xFF);
    assert!(cpu.flags.carry);
    assert!(cpu.flags.negative);
    assert!(!cpu.flags.break1 && !cpu.flags.break2);
}

#[test]
fn step_illegal_opcode() {
    let mut cpu = Cpu::new();
    cpu.memory[0] = 0x02;
    let r = cpu.step();
    assert!(r == Err(CpuError::IllegalOpcode(0x02)));
    assert_eq!(cpu.pc, 1);
    assert_eq!(cpu.sp, 0xFF);
}

#[test]
fn step_branch_backward() {
    let mut cpu = Cpu::new();
    cpu.pc = 0x10;
    cpu.memory[0x10] = 0x90;
    cpu.memory[0x11] = 0xFE;
    cpu.step().unwrap();
    assert_eq!(cpu.pc, 0x10);
}

#[test]
fn step_branch_forward() {
    let mut cpu = Cpu::new();
    cpu.memory[0] = 0xF0;
    cpu.memory[1] = 0x05;
    cpu.flags.zero = true;
    cpu.step().unwrap();
    assert_eq!(cpu.pc, 7);
}

#[test]
fn step_inx_wraps_to_zero() {
    let mut cpu = Cpu::new();
    cpu.regx = 0xFF;
    cpu.memory[0] = 0xE8;
    cpu.step().unwrap();
    assert_eq!(cpu.regx, 0);
    assert!(cpu.flags.zero);
    assert!(!cpu.flags.negative);
}

#[test]
fn step_dex_wraps_to_ff() {
    let mut cpu = Cpu::new();
    cpu.regx = 0;
    cpu.memory[0] = 0xCA;
    cpu.step().unwrap();
    assert_eq!(cpu.regx, 0xFF);
    assert!(!cpu.flags.zero);
    assert!(cpu.flags.negative);
}

#[test]
fn step_inc_memory_wraps() {
    let mut cpu = Cpu::new();
    cpu.memory[0] = 0xE6;
    cpu.memory[1] = 0x20;
    cpu.memory[0x20] = 0xFF;
    cpu.step().unwrap();
    assert_eq!(cpu.memory[0x20], 0);
    assert!(cpu.flags.zero);
}

#[test]
fn step_dec_memory_wraps() {
    let mut cpu = Cpu::new();
    cpu.memory[0] = 0xC6;
    cpu.memory[1] = 0x20;
    cpu.memory[0x20] = 0x00;
    cpu.step().unwrap();
    assert_eq!(cpu.memory[0x20], 0xFF);
    assert!(cpu.flags.negative);
}

#[test]
fn step_asl_memory() {
    let mut cpu = Cpu::new();
    cpu.memory[0] = 0x06;
    cpu.memory[1] = 0x20;
    cpu.memory[0x20] = 0x81;
    cpu.step().unwrap();
    assert_eq!(cpu.memory[0x20], 0x02);
    assert!(cpu.flags.carry);
    assert!(!cpu.flags.zero);
    assert!(!cpu.flags.negative);
}

#[test]
fn step_rol_memory_through_carry() {
    let mut cpu = Cpu::new();
    cpu.memory[0] = 0x26;
    cpu.memory[1] = 0x20;
    cpu.memory[0x20] = 0x80;
    cpu.flags.carry = true;
    cpu.step().unwrap();
    assert_eq!(cpu.memory[0x20], 0x01);
    assert!(cpu.flags.carry);
}

#[test]
fn step_ror_memory_through_carry() {
    let mut cpu = Cpu::new();
    cpu.memory[0] = 0x66;
    cpu.memory[1] = 0x20;
    cpu.memory[0x20] = 0x01;
    cpu.flags.carry = false;
    cpu.step().unwrap();
    assert_eq!(cpu.memory[0x20], 0x00);
    assert!(cpu.flags.carry);
    assert!(cpu.flags.zero);
}

#[test]
fn step_ldx_zero_page_y() {
    let mut cpu = Cpu::new();
    cpu.memory[0] = 0xB6;
    cpu.memory[1] = 0x10;
    cpu.regy = 5;
    cpu.memory[0x15] = 77;
    cpu.step().unwrap();
    assert_eq!(cpu.regx, 77);
}

#[test]
fn step_ldy_absolute_x() {
    let mut cpu = Cpu::new();
    cpu.memory[0] = 0xBC;
    cpu.memory[1] = 0x00;
    cpu.memory[2] = 0x20;
    cpu.regx = 5;
    cpu.memory[0x2005] = 9;
    cpu.step().unwrap();
    assert_eq!(cpu.regy, 9);
}

#[test]
fn step_zero_page_x_wraps() {
    let mut cpu = Cpu::new();
    cpu.memory[0] = 0xB5;
    cpu.memory[1] = 0x80;
    cpu.regx = 0xFF;
    cpu.memory[0x7F] = 42;
    cpu.step().unwrap();
    assert_eq!(cpu.rega, 42);
}

#[test]
fn step_absolute_x_wraps() {
    let mut cpu = Cpu::new();
    cpu.memory[0] = 0xBD;
    cpu.memory[1] = 0xFF;
    cpu.memory[2] = 0xFF;
    cpu.regx = 0x10;
    cpu.memory[0x000F] = 31;
    cpu.step().unwrap();
    assert_eq!(cpu.rega, 31);
}

#[test]
fn step_sequence_load_store() {
    let mut cpu = Cpu::new();
    cpu.memory[0] = 0xA9;
    cpu.memory[1] = 0x2A;
    cpu.memory[2] = 0x85;
    cpu.memory[3] = 0x30;
    cpu.step().unwrap();
    cpu.step().unwrap();
    assert_eq!(cpu.memory[0x30], 0x2A);
    assert_eq!(cpu.pc, 4);
}

#[test]
fn step_jmp_absolute() {
    let mut cpu = Cpu::new();
    cpu.memory[0] = 0x4C;
    cpu.memory[1] = 0x34;
    cpu.memory[2] = 0x12;
    cpu.step().unwrap();
    assert_eq!(cpu.pc, 0x1234);
}

#[test]
fn step_nop_advances_only_pc() {
    let mut cpu = Cpu::new();
    cpu.memory[0] = 0xEA;
    cpu.step().unwrap();
    assert_eq!(cpu.pc, 1);
    assert_eq!(cpu.sp, 0xFF);
    assert_eq!(cpu.rega, 0);
}

#[test]
fn stack_push_pop_pairs_restore_pointer() {
    let mut cpu = Cpu::new();
    let s0 = cpu.sp;
    for round in 0..4u8 {
        cpu.push_stack(round);
        assert_eq!(cpu.peek_stack(), round);
        assert_eq!(cpu.pop_stack(), round);
        assert_eq!(cpu.sp, s0);
    }
    cpu.push_stack(1);
    cpu.push_stack(2);
    assert_eq!(cpu.pop_stack(), 2);
    assert_eq!(cpu.pop_stack(), 1);
    assert_eq!(cpu.sp, s0);
}

#[test]
fn exec_matches_decoded_step() {
    let mut by_step = Cpu::new();
    by_step.memory[0] = 0x69;
    by_step.memory[1] = 7;
    by_step.step().unwrap();
    let mut by_exec = Cpu::new();
    by_exec.memory[0] = 0x69;
    by_exec.memory[1] = 7;
    let op = Ops::from_byte(by_exec.memory[0]).unwrap();
    by_exec.exec_instruction(op);
    assert_eq!(by_step.rega, by_exec.rega);
    assert_eq!(by_step.pc, by_exec.pc.wrapping_add(1));
}
