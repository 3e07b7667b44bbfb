use mos6502::cpu::Cpu;
use mos6502::memory::MemoryOps;

#[test]
fn test_pull_pc() {
    let mut cpu = Cpu::new();
    cpu.pc = 0x4567;
    cpu.save_pc(false);
    cpu.pc = 0x3479;
    cpu.pull_pc();
    assert_eq!(cpu.pc, 0x4567);
}

#[test]
fn test_fetch_indirect() {
    let mut cpu = Cpu::new();
    cpu.memory[0x0120] = 0xFC;
    cpu.memory[0x0121] = 0xBA;
    cpu.memory[1] = 0x20;
    cpu.memory[2] = 0x01;
    assert_eq!(cpu.fetch_indirect(), 0xBAFC);
}

#[test]
fn test_save_pc() {
    let mut cpu = Cpu::new();
    cpu.pc = 0x3456;
    cpu.save_pc(false);
    assert_eq!(cpu.peek_stack(), 0x56);
    assert_eq!(cpu.memory[0x0100 + cpu.sp as usize + 2], 0x34);
}

#[test]
fn test_fetch_indirecty() {
    let mut cpu = Cpu::new();
    cpu.memory[0x14] = 0x3B;
    cpu.memory[0x15] = 0x34;
    cpu.memory[1] = 0x14;
    cpu.regy = 10;
    assert_eq!(cpu.fetch_indirecty(), 0x3445);
}

#[test]
fn test_fetch_indirecty_wrap() {
    let mut cpu = Cpu::new();
    cpu.memory[0xFF] = 0x46;
    cpu.memory[0x00] = 0x33;
    cpu.memory[1] = 0xFF;
    cpu.regy = 0xFF;
    assert_eq!(cpu.fetch_indirecty(), 0x3445);
}

#[test]
fn test_fetch_indirectx_wrap() {
    let mut cpu = Cpu::new();
    cpu.memory[0x14] = 0x45;
    cpu.memory[0x15] = 0x34;
    cpu.memory[1] = 0x15;
    cpu.regx = 0xFF;
    assert_eq!(cpu.fetch_indirectx(), 0x3445);
}

#[test]
fn test_fetch_indirectx() {
    let mut cpu = Cpu::new();
    cpu.memory[0x14] = 0x45;
    cpu.memory[0x15] = 0x34;
    cpu.memory[1] = 0x14 - 10;
    cpu.regx = 10;
    assert_eq!(cpu.fetch_indirectx(), 0x3445);
}

#[test]
fn test_fetch_absy() {
    let mut cpu = Cpu::new();
    cpu.memory[1] = 0x11;
    cpu.memory[2] = 0x11;
    cpu.regy = 10;
    assert_eq!(cpu.fetch_absy(), 0x1111 + 10);
}

#[test]
fn test_fetch_absx() {
    let mut cpu = Cpu::new();
    cpu.memory[1] = 0x11;
    cpu.memory[2] = 0x11;
    cpu.regx = 10;
    assert_eq!(cpu.fetch_absx(), 0x1111 + 10);
}

#[test]
fn test_fetch_two_bytes() {
    let mut cpu = Cpu::new();
    cpu.memory[1] = 10;
    cpu.memory[2] = 20;
    assert_eq!(cpu.fetch_two_bytes(), (10, 20));
}

#[test]
fn test_fetch_abs() {
    let mut cpu = Cpu::new();
    cpu.memory[1] = 0x11;
    cpu.memory[2] = 0x11;
    assert_eq!(cpu.fetch_abs(), 0x1111);
}

#[test]
fn test_fetch_byte() {
    let mut cpu = Cpu::new();
    cpu.memory[1] = 23;
    assert_eq!(cpu.fetch_next_byte(), 23u8);
}

#[test]
fn test_fetch_zp() {
    let mut cpu = Cpu::new();
    cpu.memory[1] = 10;
    assert_eq!(cpu.fetch_zp(), 10);
}

#[test]
fn test_fetch_zpx() {
    let mut cpu = Cpu::new();
    cpu.memory[1] = 8;
    cpu.regx = 2;
    assert_eq!(cpu.fetch_zpx(), 10);
}

#[test]
fn test_fetch_zpx_wrap() {
    let mut cpu = Cpu::new();
    cpu.memory[1] = 0x80;
    cpu.regx = 0xFF;
    assert_eq!(cpu.fetch_zpx(), 0x7F);
}

#[test]
fn test_fetch_zpy() {
    let mut cpu = Cpu::new();
    cpu.memory[1] = 8;
    cpu.regy = 3;
    assert_eq!(cpu.fetch_zpy(), 11);
}

#[test]
fn test_fetch_abs_little_endian() {
    let mut cpu = Cpu::new();
    cpu.memory[1] = 0x63;
    cpu.memory[2] = 0x56;
    assert_eq!(cpu.fetch_abs(), 0x5663);
}

#[test]
fn test_push_peek_pop() {
    let mut cpu = Cpu::new();
    cpu.push_stack(7);
    assert_eq!(cpu.peek_stack(), 7);
    cpu.push_stack(9);
    assert_eq!(cpu.peek_stack(), 9);
    assert_eq!(cpu.pop_stack(), 9);
    assert_eq!(cpu.pop_stack(), 7);
    assert_eq!(cpu.sp, 0xFF);
}

#[test]
fn test_save_pc_wraps_stack_pointer() {
    let mut cpu = Cpu::new();
    cpu.sp = 0x00;
    cpu.pc = 0xABCD;
    cpu.save_pc(false);
    cpu.pc = 0;
    cpu.pull_pc();
    assert_eq!(cpu.pc, 0xABCD);
    assert_eq!(cpu.sp, 0x00);
}

#[test]
fn test_read_write() {
    let mut cpu = Cpu::new();
    cpu.write(0x1234, 0xAB);
    assert_eq!(cpu.read(0x1234), 0xAB);
    assert_eq!(cpu.read(0x1235), 0);
}
