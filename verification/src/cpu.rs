//! The execution engine: register file, program counter, stack pointer and
//! the 64 KiB address space, together with the per-instruction semantics.
//!
//! `CpuV` is the mathematical view of the machine state; every method's
//! contract is stated against it.  `exec_step` is the specification-level
//! interpreter: it gives, for every instruction, the exact successor state.

use vstd::prelude::*;
use crate::flags::Flags;
use crate::flags::bval;
use crate::flags::spec_from_byte;
use crate::flags::spec_to_byte;
use crate::instruction::AddrModes;
use crate::instruction::Ops;
use crate::instruction::TransferOption;
use crate::instruction::spec_decode;
use crate::memory::MemoryOps;
use crate::memory::consumed;
use crate::memory::ea_abs;
use crate::memory::ea_absx;
use crate::memory::ea_absy;
use crate::memory::ea_ind;
use crate::memory::ea_indx;
use crate::memory::ea_indy;
use crate::memory::ea_zp;
use crate::memory::ea_zpx;
use crate::memory::ea_zpy;
use crate::memory::op1;
use crate::memory::peek_spec;
use crate::memory::pop_spec;
use crate::memory::pull_pc_spec;
use crate::memory::pulled_pc;
use crate::memory::push16_spec;
use crate::memory::push_spec;
use crate::memory::read16;
use crate::memory::w16;
use crate::memory::w8;
use crate::registers::Registers;
use crate::utils::bit_set;
use crate::utils::check_bit;
use crate::utils::combine_bytes;
use crate::utils::get_top_bit;
use crate::utils::is_overflow;
use crate::utils::spec_overflow;

verus! {

/// Number of addressable bytes.
pub const MEM_SIZE: usize = 0x10000;

/// The processor state.  At an instruction boundary `pc` holds the address
/// of the next opcode byte and `sp` indexes the next free cell of the
/// hardware stack in page one, so that `0x0100 + sp + 1` holds the most
/// recently pushed byte.
pub struct Cpu {
    pub memory: Vec<u8>,
    pub rega: u8,
    pub regx: u8,
    pub regy: u8,
    pub flags: Flags,
    pub pc: u16,
    pub sp: u8,
}

/// The mathematical view of the processor state.
pub struct CpuV {
    pub mem: Seq<u8>,
    pub a: u8,
    pub x: u8,
    pub y: u8,
    pub flags: Flags,
    pub pc: u16,
    pub sp: u8,
}

impl CpuV {
    /// The address space always spans exactly 64 KiB.
    pub open spec fn wf(self) -> bool {
        self.mem.len() == 0x10000
    }
}

impl View for Cpu {
    type V = CpuV;

    open spec fn view(&self) -> CpuV {
        CpuV {
            mem: self.memory@,
            a: self.rega,
            x: self.regx,
            y: self.regy,
            flags: self.flags,
            pc: self.pc,
            sp: self.sp,
        }
    }
}

/// The state right after construction: zero-filled memory, cleared
/// registers and flags, the stack pointer at the top of page one.
pub open spec fn spec_new() -> CpuV {
    CpuV {
        mem: Seq::new(0x10000, |i: int| 0u8),
        a: 0,
        x: 0,
        y: 0,
        flags: crate::flags::spec_clear(),
        pc: 0,
        sp: 0xFF,
    }
}

/// Errors the execution engine can report.  An illegal opcode is fatal at
/// the core and carries the offending byte; a handler asking an addressing
/// mode for an address it cannot give is ruled out statically by the
/// handlers' preconditions, so no such error exists at run time.
#[derive(Clone, Copy, Debug, PartialEq, Eq, Structural)]
pub enum CpuError {
    IllegalOpcode(u8),
}

/// How many operand bytes an addressing mode consumes.
pub open spec fn mode_bytes(mode: AddrModes) -> int {
    match mode {
        AddrModes::Immediate => 1,
        AddrModes::ZeroPage => 1,
        AddrModes::ZeroPageX => 1,
        AddrModes::ZeroPageY => 1,
        AddrModes::Absolute => 2,
        AddrModes::AbsoluteX => 2,
        AddrModes::AbsoluteY => 2,
        AddrModes::IndirectX => 1,
        AddrModes::IndirectY => 1,
        AddrModes::Indirect => 2,
        AddrModes::Accumulator => 0,
    }
}

/// Whether a mode resolves to a memory address at all.
pub open spec fn is_addr_mode(mode: AddrModes) -> bool {
    !(mode is Immediate) && !(mode is Accumulator)
}

/// The effective address of an address-naming mode, always below 0x10000.
pub open spec fn ea(c: CpuV, mode: AddrModes) -> int {
    match mode {
        AddrModes::ZeroPage => ea_zp(c),
        AddrModes::ZeroPageX => ea_zpx(c),
        AddrModes::ZeroPageY => ea_zpy(c),
        AddrModes::Absolute => ea_abs(c),
        AddrModes::AbsoluteX => ea_absx(c),
        AddrModes::AbsoluteY => ea_absy(c),
        AddrModes::IndirectX => ea_indx(c),
        AddrModes::IndirectY => ea_indy(c),
        AddrModes::Indirect => ea_ind(c),
        AddrModes::Immediate => 0,
        AddrModes::Accumulator => 0,
    }
}

/// The operand byte a value-consuming instruction sees.
pub open spec fn operand(c: CpuV, mode: AddrModes) -> u8 {
    if mode is Immediate {
        op1(c)
    } else {
        c.mem[ea(c, mode)]
    }
}

/// Zero and negative set from a result byte, the other flags untouched.
pub open spec fn nz(f: Flags, v: u8) -> Flags {
    Flags { zero: v == 0, negative: v >= 0x80, ..f }
}

/// Carry, zero and negative set from a shift or rotate result.
pub open spec fn shift_flags(f: Flags, res: u8, carry: bool) -> Flags {
    Flags { carry: carry, zero: res == 0, negative: res >= 0x80, ..f }
}

/// The value held by a register name.
pub open spec fn reg_val(c: CpuV, r: Registers) -> u8 {
    match r {
        Registers::A => c.a,
        Registers::X => c.x,
        Registers::Y => c.y,
    }
}

/// The state with a register name set to a value.
pub open spec fn with_reg(c: CpuV, r: Registers, v: u8) -> CpuV {
    match r {
        Registers::A => CpuV { a: v, ..c },
        Registers::X => CpuV { x: v, ..c },
        Registers::Y => CpuV { y: v, ..c },
    }
}

/// ADC: the accumulator takes the low byte of the nine-bit sum of A, the
/// operand and the carry; carry is bit eight of that sum; overflow is the
/// signed-overflow condition on the result byte.
pub open spec fn adc_step(c: CpuV, mode: AddrModes) -> CpuV {
    let m = operand(c, mode);
    let sum = c.a + m + bval(c.flags.carry);
    let res = w8(sum);
    let c1 = consumed(c, mode_bytes(mode));
    CpuV {
        a: res,
        flags: (Flags {
            carry: sum >= 0x100,
            overflow: spec_overflow(res, c.a, m),
            zero: res == 0,
            negative: res >= 0x80,
            ..c.flags
        }),
        ..c1
    }
}

/// SBC: the accumulator takes A minus the operand minus the complemented
/// carry, modulo 256; carry is set when no borrow was needed; overflow is
/// the signed-overflow condition of the subtraction, over A, the operand
/// and the result byte.
pub open spec fn sbc_step(c: CpuV, mode: AddrModes) -> CpuV {
    let m = operand(c, mode);
    let diff = c.a - m - bval(!c.flags.carry);
    let res = w8(diff);
    let c1 = consumed(c, mode_bytes(mode));
    CpuV {
        a: res,
        flags: (Flags {
            carry: diff >= 0,
            overflow: spec_overflow(c.a, m, res),
            zero: res == 0,
            negative: res >= 0x80,
            ..c.flags
        }),
        ..c1
    }
}

/// AND: bitwise conjunction into the accumulator, setting N and Z.
pub open spec fn and_step(c: CpuV, mode: AddrModes) -> CpuV {
    let res = (c.a & operand(c, mode)) as u8;
    let c1 = consumed(c, mode_bytes(mode));
    CpuV { a: res, flags: nz(c.flags, res), ..c1 }
}

/// ORA: bitwise disjunction into the accumulator, setting N and Z.
pub open spec fn or_step(c: CpuV, mode: AddrModes) -> CpuV {
    let res = (c.a | operand(c, mode)) as u8;
    let c1 = consumed(c, mode_bytes(mode));
    CpuV { a: res, flags: nz(c.flags, res), ..c1 }
}

/// EOR: bitwise exclusive or into the accumulator, setting N and Z.
pub open spec fn eor_step(c: CpuV, mode: AddrModes) -> CpuV {
    let res = (c.a ^ operand(c, mode)) as u8;
    let c1 = consumed(c, mode_bytes(mode));
    CpuV { a: res, flags: nz(c.flags, res), ..c1 }
}

/// CMP, CPX, CPY: carry, zero and negative record whether the register is
/// at least, equal to, or below the operand; nothing else changes.
pub open spec fn cmp_step(c: CpuV, mode: AddrModes, r: Registers) -> CpuV {
    let m = operand(c, mode);
    let rv = reg_val(c, r);
    let c1 = consumed(c, mode_bytes(mode));
    CpuV {
        flags: (Flags { carry: rv >= m, zero: rv == m, negative: rv < m, ..c.flags }),
        ..c1
    }
}

/// BIT: zero from A AND the operand; negative and overflow copy bits 7
/// and 6 of the operand; the accumulator is unchanged.
pub open spec fn bit_step(c: CpuV, mode: AddrModes) -> CpuV {
    let m = operand(c, mode);
    let c1 = consumed(c, mode_bytes(mode));
    CpuV {
        flags: (Flags {
            zero: c.a & m == 0,
            overflow: bit_set(m, 6),
            negative: m >= 0x80,
            ..c.flags
        }),
        ..c1
    }
}

/// LDA, LDX, LDY: the register takes the operand, setting N and Z.
pub open spec fn ld_step(c: CpuV, mode: AddrModes, r: Registers) -> CpuV {
    let v = operand(c, mode);
    let c1 = consumed(c, mode_bytes(mode));
    with_reg(CpuV { flags: nz(c.flags, v), ..c1 }, r, v)
}

/// STA, STX, STY: the addressed cell takes the register; flags unchanged.
pub open spec fn st_step(c: CpuV, mode: AddrModes, r: Registers) -> CpuV {
    let c1 = consumed(c, mode_bytes(mode));
    CpuV { mem: c1.mem.update(ea(c, mode), reg_val(c, r)), ..c1 }
}

/// The value a transfer source names.
pub open spec fn transfer_val(c: CpuV, from: TransferOption) -> u8 {
    match from {
        TransferOption::A => c.a,
        TransferOption::X => c.x,
        TransferOption::Y => c.y,
        TransferOption::S => c.sp,
    }
}

/// Register-to-register transfer: the destination takes the source value;
/// N and Z are set from it unless the destination is the stack pointer.
pub open spec fn transfer_step(c: CpuV, from: TransferOption, to: TransferOption) -> CpuV {
    let v = transfer_val(c, from);
    match to {
        TransferOption::A => CpuV { a: v, flags: nz(c.flags, v), ..c },
        TransferOption::X => CpuV { x: v, flags: nz(c.flags, v), ..c },
        TransferOption::Y => CpuV { y: v, flags: nz(c.flags, v), ..c },
        TransferOption::S => CpuV { sp: v, ..c },
    }
}

/// INC: the addressed cell steps up by one, wrapping, setting N and Z.
pub open spec fn inc_step(c: CpuV, mode: AddrModes) -> CpuV {
    let addr = ea(c, mode);
    let res = w8(c.mem[addr] + 1);
    let c1 = consumed(c, mode_bytes(mode));
    CpuV { mem: c1.mem.update(addr, res), flags: nz(c.flags, res), ..c1 }
}

/// DEC: the addressed cell steps down by one, wrapping, setting N and Z.
pub open spec fn dec_step(c: CpuV, mode: AddrModes) -> CpuV {
    let addr = ea(c, mode);
    let res = w8(c.mem[addr] - 1);
    let c1 = consumed(c, mode_bytes(mode));
    CpuV { mem: c1.mem.update(addr, res), flags: nz(c.flags, res), ..c1 }
}

/// INX, INY: the index register steps up by one, wrapping, setting N and Z.
pub open spec fn inc_reg_step(c: CpuV, r: Registers) -> CpuV {
    let res = w8(reg_val(c, r) + 1);
    with_reg(CpuV { flags: nz(c.flags, res), ..c }, r, res)
}

/// DEX, DEY: the index register steps down by one, wrapping, setting N
/// and Z.
pub open spec fn dec_reg_step(c: CpuV, r: Registers) -> CpuV {
    let res = w8(reg_val(c, r) - 1);
    with_reg(CpuV { flags: nz(c.flags, res), ..c }, r, res)
}

/// ASL: shift left by one; carry takes the old top bit.
pub open spec fn asl_step(c: CpuV, mode: AddrModes) -> CpuV {
    if mode is Accumulator {
        let res = (c.a << 1) as u8;
        CpuV { a: res, flags: shift_flags(c.flags, res, c.a >= 0x80), ..c }
    } else {
        let addr = ea(c, mode);
        let v = c.mem[addr];
        let res = (v << 1) as u8;
        let c1 = consumed(c, mode_bytes(mode));
        CpuV { mem: c1.mem.update(addr, res), flags: shift_flags(c.flags, res, v >= 0x80), ..c1 }
    }
}

/// LSR: shift right by one; carry takes the old bottom bit.
pub open spec fn lsr_step(c: CpuV, mode: AddrModes) -> CpuV {
    if mode is Accumulator {
        let res = (c.a >> 1) as u8;
        CpuV { a: res, flags: shift_flags(c.flags, res, bit_set(c.a, 0)), ..c }
    } else {
        let addr = ea(c, mode);
        let v = c.mem[addr];
        let res = (v >> 1) as u8;
        let c1 = consumed(c, mode_bytes(mode));
        CpuV {
            mem: c1.mem.update(addr, res),
            flags: shift_flags(c.flags, res, bit_set(v, 0)),
            ..c1
        }
    }
}

/// The byte a rotate produces from a value and the incoming carry.
pub open spec fn rot_val(v: u8, is_ror: bool, carry_in: bool) -> u8 {
    if is_ror {
        ((v >> 1) | (if carry_in { 0x80u8 } else { 0u8 })) as u8
    } else {
        ((v << 1) | (if carry_in { 1u8 } else { 0u8 })) as u8
    }
}

/// The carry a rotate pushes out: the bit that left the byte.
pub open spec fn rot_carry(v: u8, is_ror: bool) -> bool {
    if is_ror {
        bit_set(v, 0)
    } else {
        v >= 0x80
    }
}

/// ROL and ROR: rotate through the carry flag.
pub open spec fn rot_step(c: CpuV, mode: AddrModes, is_ror: bool) -> CpuV {
    if mode is Accumulator {
        let res = rot_val(c.a, is_ror, c.flags.carry);
        CpuV { a: res, flags: shift_flags(c.flags, res, rot_carry(c.a, is_ror)), ..c }
    } else {
        let addr = ea(c, mode);
        let v = c.mem[addr];
        let res = rot_val(v, is_ror, c.flags.carry);
        let c1 = consumed(c, mode_bytes(mode));
        CpuV {
            mem: c1.mem.update(addr, res),
            flags: shift_flags(c.flags, res, rot_carry(v, is_ror)),
            ..c1
        }
    }
}

/// The signed reading of a displacement byte.
pub open spec fn sext(d: u8) -> int {
    if d < 0x80 {
        d as int
    } else {
        d - 0x100
    }
}

/// A branch: the displacement byte is consumed either way; when taken, the
/// program counter moves by the sign-extended displacement, wrapping.
pub open spec fn branch_step(c: CpuV, taken: bool) -> CpuV {
    let c1 = consumed(c, 1);
    if taken {
        CpuV { pc: w16(c1.pc + sext(op1(c))), ..c1 }
    } else {
        c1
    }
}

/// JMP: the program counter takes the effective address.
pub open spec fn jmp_step(c: CpuV, mode: AddrModes) -> CpuV {
    CpuV { pc: ea(c, mode) as u16, ..consumed(c, mode_bytes(mode)) }
}

/// JSR: the address of the last byte of the instruction is saved, then the
/// program counter takes the absolute target.
pub open spec fn jsr_step(c: CpuV) -> CpuV {
    let c1 = consumed(c, 2);
    let c2 = push16_spec(c1, c1.pc as int);
    CpuV { pc: ea_abs(c) as u16, ..c2 }
}

/// RTS: the saved word is pulled and the program counter takes it plus one.
pub open spec fn rts_step(c: CpuV) -> CpuV {
    let c1 = pull_pc_spec(c);
    CpuV { pc: w16(c1.pc + 1), ..c1 }
}

/// PLP: the status register is popped off the stack.
pub open spec fn plp_step(c: CpuV) -> CpuV {
    CpuV { flags: spec_from_byte(peek_spec(c)), ..pop_spec(c) }
}

/// PLA: the accumulator is popped off the stack, setting N and Z.
pub open spec fn pla_step(c: CpuV) -> CpuV {
    let v = peek_spec(c);
    CpuV { a: v, flags: nz(c.flags, v), ..pop_spec(c) }
}

/// RTI: the status register is popped, then the program counter, with no
/// increment.
pub open spec fn rti_step(c: CpuV) -> CpuV {
    pull_pc_spec(plp_step(c))
}

/// BRK: the program counter is saved unchanged, the status byte follows it
/// onto the stack, the program counter takes the interrupt vector, and the
/// break flags are set on the live status register.
pub open spec fn brk_step(c: CpuV) -> CpuV {
    let c1 = push16_spec(c, c.pc as int);
    let c2 = push_spec(c1, spec_to_byte(c.flags));
    CpuV {
        pc: read16(c, 0xFFFE) as u16,
        flags: (Flags { break1: true, break2: true, ..c.flags }),
        ..c2
    }
}

/// The exact effect of one decoded instruction on the machine state.
pub open spec fn exec_step(c: CpuV, op: Ops) -> CpuV {
    match op {
        Ops::AdcI => adc_step(c, AddrModes::Immediate),
        Ops::AdcZp => adc_step(c, AddrModes::ZeroPage),
        Ops::AdcZpX => adc_step(c, AddrModes::ZeroPageX),
        Ops::AdcAbs => adc_step(c, AddrModes::Absolute),
        Ops::AdcAbsX => adc_step(c, AddrModes::AbsoluteX),
        Ops::AdcAbsY => adc_step(c, AddrModes::AbsoluteY),
        Ops::AdcIndX => adc_step(c, AddrModes::IndirectX),
        Ops::AdcIndY => adc_step(c, AddrModes::IndirectY),
        Ops::AndI => and_step(c, AddrModes::Immediate),
        Ops::AndZp => and_step(c, AddrModes::ZeroPage),
        Ops::AndZpX => and_step(c, AddrModes::ZeroPageX),
        Ops::AndAbs => and_step(c, AddrModes::Absolute),
        Ops::AndAbsX => and_step(c, AddrModes::AbsoluteX),
        Ops::AndAbsY => and_step(c, AddrModes::AbsoluteY),
        Ops::AndIndX => and_step(c, AddrModes::IndirectX),
        Ops::AndIndY => and_step(c, AddrModes::IndirectY),
        Ops::AslAccum => asl_step(c, AddrModes::Accumulator),
        Ops::AslZp => asl_step(c, AddrModes::ZeroPage),
        Ops::AslZpX => asl_step(c, AddrModes::ZeroPageX),
        Ops::AslAbs => asl_step(c, AddrModes::Absolute),
        Ops::AslAbsX => asl_step(c, AddrModes::AbsoluteX),
        Ops::Bcc => branch_step(c, !c.flags.carry),
        Ops::Bcs => branch_step(c, c.flags.carry),
        Ops::Beq => branch_step(c, c.flags.zero),
        Ops::Bne => branch_step(c, !c.flags.zero),
        Ops::Bmi => branch_step(c, c.flags.negative),
        Ops::Bpl => branch_step(c, !c.flags.negative),
        Ops::Bvc => branch_step(c, !c.flags.overflow),
        Ops::Bvs => branch_step(c, c.flags.overflow),
        Ops::BitZp => bit_step(c, AddrModes::ZeroPage),
        Ops::BitAbs => bit_step(c, AddrModes::Absolute),
        Ops::Brk => brk_step(c),
        Ops::Clc => CpuV { flags: (Flags { carry: false, ..c.flags }), ..c },
        Ops::Cld => CpuV { flags: (Flags { decimal: false, ..c.flags }), ..c },
        Ops::Cli => CpuV { flags: (Flags { inter_disable: false, ..c.flags }), ..c },
        Ops::Clv => CpuV { flags: (Flags { overflow: false, ..c.flags }), ..c },
        Ops::CmpI => cmp_step(c, AddrModes::Immediate, Registers::A),
        Ops::CmpZp => cmp_step(c, AddrModes::ZeroPage, Registers::A),
        Ops::CmpZpX => cmp_step(c, AddrModes::ZeroPageX, Registers::A),
        Ops::CmpAbs => cmp_step(c, AddrModes::Absolute, Registers::A),
        Ops::CmpAbsX => cmp_step(c, AddrModes::AbsoluteX, Registers::A),
        Ops::CmpAbsY => cmp_step(c, AddrModes::AbsoluteY, Registers::A),
        Ops::CmpIndX => cmp_step(c, AddrModes::IndirectX, Registers::A),
        Ops::CmpIndY => cmp_step(c, AddrModes::IndirectY, Registers::A),
        Ops::CmpXI => cmp_step(c, AddrModes::Immediate, Registers::X),
        Ops::CmpXZp => cmp_step(c, AddrModes::ZeroPage, Registers::X),
        Ops::CmpXAbs => cmp_step(c, AddrModes::Absolute, Registers::X),
        Ops::CmpYI => cmp_step(c, AddrModes::Immediate, Registers::Y),
        Ops::CmpYZp => cmp_step(c, AddrModes::ZeroPage, Registers::Y),
        Ops::CmpYAbs => cmp_step(c, AddrModes::Absolute, Registers::Y),
        Ops::DecZp => dec_step(c, AddrModes::ZeroPage),
        Ops::DecZpX => dec_step(c, AddrModes::ZeroPageX),
        Ops::DecAbs => dec_step(c, AddrModes::Absolute),
        Ops::DecAbsX => dec_step(c, AddrModes::AbsoluteX),
        Ops::DecX => dec_reg_step(c, Registers::X),
        Ops::DecY => dec_reg_step(c, Registers::Y),
        Ops::IncZp => inc_step(c, AddrModes::ZeroPage),
        Ops::IncZpX => inc_step(c, AddrModes::ZeroPageX),
        Ops::IncAbs => inc_step(c, AddrModes::Absolute),
        Ops::IncAbsX => inc_step(c, AddrModes::AbsoluteX),
        Ops::IncX => inc_reg_step(c, Registers::X),
        Ops::IncY => inc_reg_step(c, Registers::Y),
        Ops::EORI => eor_step(c, AddrModes::Immediate),
        Ops::EORZp => eor_step(c, AddrModes::ZeroPage),
        Ops::EORZpX => eor_step(c, AddrModes::ZeroPageX),
        Ops::EORAbs => eor_step(c, AddrModes::Absolute),
        Ops::EORAbsX => eor_step(c, AddrModes::AbsoluteX),
        Ops::EORAbsY => eor_step(c, AddrModes::AbsoluteY),
        Ops::EORIndX => eor_step(c, AddrModes::IndirectX),
        Ops::EORIndY => eor_step(c, AddrModes::IndirectY),
        Ops::JmpAbs => jmp_step(c, AddrModes::Absolute),
        Ops::JmpInd => jmp_step(c, AddrModes::Indirect),
        Ops::Jsr => jsr_step(c),
        Ops::LdaI => ld_step(c, AddrModes::Immediate, Registers::A),
        Ops::LdaZp => ld_step(c, AddrModes::ZeroPage, Registers::A),
        Ops::LdaZpX => ld_step(c, AddrModes::ZeroPageX, Registers::A),
        Ops::LdaAbs => ld_step(c, AddrModes::Absolute, Registers::A),
        Ops::LdaAbsX => ld_step(c, AddrModes::AbsoluteX, Registers::A),
        Ops::LdaAbsY => ld_step(c, AddrModes::AbsoluteY, Registers::A),
        Ops::LdaIndX => ld_step(c, AddrModes::IndirectX, Registers::A),
        Ops::LdaIndY => ld_step(c, AddrModes::IndirectY, Registers::A),
        Ops::LdxI => ld_step(c, AddrModes::Immediate, Registers::X),
        Ops::LdxZp => ld_step(c, AddrModes::ZeroPage, Registers::X),
        Ops::LdxZpY => ld_step(c, AddrModes::ZeroPageY, Registers::X),
        Ops::LdxAbs => ld_step(c, AddrModes::Absolute, Registers::X),
        Ops::LdxAbsY => ld_step(c, AddrModes::AbsoluteY, Registers::X),
        Ops::LdyI => ld_step(c, AddrModes::Immediate, Registers::Y),
        Ops::LdyZp => ld_step(c, AddrModes::ZeroPage, Registers::Y),
        Ops::LdyZpX => ld_step(c, AddrModes::ZeroPageX, Registers::Y),
        Ops::LdyAbs => ld_step(c, AddrModes::Absolute, Registers::Y),
        Ops::LdyAbsX => ld_step(c, AddrModes::AbsoluteX, Registers::Y),
        Ops::LsrAccum => lsr_step(c, AddrModes::Accumulator),
        Ops::LsrZp => lsr_step(c, AddrModes::ZeroPage),
        Ops::LsrZpX => lsr_step(c, AddrModes::ZeroPageX),
        Ops::LsrAbs => lsr_step(c, AddrModes::Absolute),
        Ops::LsrAbsX => lsr_step(c, AddrModes::AbsoluteX),
        Ops::Nop => c,
        Ops::ORI => or_step(c, AddrModes::Immediate),
        Ops::ORZp => or_step(c, AddrModes::ZeroPage),
        Ops::ORZpX => or_step(c, AddrModes::ZeroPageX),
        Ops::ORAbs => or_step(c, AddrModes::Absolute),
        Ops::ORAbsX => or_step(c, AddrModes::AbsoluteX),
        Ops::ORAbsY => or_step(c, AddrModes::AbsoluteY),
        Ops::ORIndX => or_step(c, AddrModes::IndirectX),
        Ops::ORIndY => or_step(c, AddrModes::IndirectY),
        Ops::Pha => push_spec(c, c.a),
        Ops::Php => push_spec(c, spec_to_byte(c.flags)),
        Ops::Pla => pla_step(c),
        Ops::Plp => plp_step(c),
        Ops::RolAccum => rot_step(c, AddrModes::Accumulator, false),
        Ops::RolZp => rot_step(c, AddrModes::ZeroPage, false),
        Ops::RolZpX => rot_step(c, AddrModes::ZeroPageX, false),
        Ops::RolAbs => rot_step(c, AddrModes::Absolute, false),
        Ops::RolAbsX => rot_step(c, AddrModes::AbsoluteX, false),
        Ops::RorAccum => rot_step(c, AddrModes::Accumulator, true),
        Ops::RorZp => rot_step(c, AddrModes::ZeroPage, true),
        Ops::RorZpX => rot_step(c, AddrModes::ZeroPageX, true),
        Ops::RorAbs => rot_step(c, AddrModes::Absolute, true),
        Ops::RorAbsX => rot_step(c, AddrModes::AbsoluteX, true),
        Ops::Rti => rti_step(c),
        Ops::Rts => rts_step(c),
        Ops::SbcI => sbc_step(c, AddrModes::Immediate),
        Ops::SbcZp => sbc_step(c, AddrModes::ZeroPage),
        Ops::SbcZpX => sbc_step(c, AddrModes::ZeroPageX),
        Ops::SbcAbs => sbc_step(c, AddrModes::Absolute),
        Ops::SbcAbsX => sbc_step(c, AddrModes::AbsoluteX),
        Ops::SbcAbsY => sbc_step(c, AddrModes::AbsoluteY),
        Ops::SbcIndX => sbc_step(c, AddrModes::IndirectX),
        Ops::SbcIndY => sbc_step(c, AddrModes::IndirectY),
        Ops::Sec => CpuV { flags: (Flags { carry: true, ..c.flags }), ..c },
        Ops::Sed => CpuV { flags: (Flags { decimal: true, ..c.flags }), ..c },
        Ops::Sei => CpuV { flags: (Flags { inter_disable: true, ..c.flags }), ..c },
        Ops::StaZp => st_step(c, AddrModes::ZeroPage, Registers::A),
        Ops::StaZpX => st_step(c, AddrModes::ZeroPageX, Registers::A),
        Ops::StaAbs => st_step(c, AddrModes::Absolute, Registers::A),
        Ops::StaAbsX => st_step(c, AddrModes::AbsoluteX, Registers::A),
        Ops::StaAbsY => st_step(c, AddrModes::AbsoluteY, Registers::A),
        Ops::StaIndX => st_step(c, AddrModes::IndirectX, Registers::A),
        Ops::StaIndY => st_step(c, AddrModes::IndirectY, Registers::A),
        Ops::StxZp => st_step(c, AddrModes::ZeroPage, Registers::X),
        Ops::StxZpY => st_step(c, AddrModes::ZeroPageY, Registers::X),
        Ops::StxAbs => st_step(c, AddrModes::Absolute, Registers::X),
        Ops::StyZp => st_step(c, AddrModes::ZeroPage, Registers::Y),
        Ops::StyZpX => st_step(c, AddrModes::ZeroPageX, Registers::Y),
        Ops::StyAbs => st_step(c, AddrModes::Absolute, Registers::Y),
        Ops::Tax => transfer_step(c, TransferOption::A, TransferOption::X),
        Ops::Tay => transfer_step(c, TransferOption::A, TransferOption::Y),
        Ops::Tsx => transfer_step(c, TransferOption::S, TransferOption::X),
        Ops::Txa => transfer_step(c, TransferOption::X, TransferOption::A),
        Ops::Txs => transfer_step(c, TransferOption::X, TransferOption::S),
        Ops::Tya => transfer_step(c, TransferOption::Y, TransferOption::A),
    }
}

/// Whether an instruction loads the program counter itself; every other
/// instruction leaves it on the byte just before the next opcode.
pub open spec fn sets_pc(op: Ops) -> bool {
    op is JmpAbs || op is JmpInd || op is Jsr || op is Brk || op is Rti || op is Rts
}

/// The machine state after one full step on a legal opcode: the decoded
/// instruction's effect, plus the advance over the opcode byte itself for
/// every instruction that does not load the program counter.
pub open spec fn step_result(c: CpuV, op: Ops) -> CpuV {
    let c1 = exec_step(c, op);
    if sets_pc(op) {
        c1
    } else {
        consumed(c1, 1)
    }
}

impl Cpu {
    /// A freshly constructed core.
    pub fn new() -> (c: Cpu)
        ensures
            c@ == spec_new(),
            c@.wf(),
    {
        let memory = vec![0u8; MEM_SIZE];
        let c = Cpu {
            memory,
            rega: 0,
            regx: 0,
            regy: 0,
            flags: Flags::new(),
            pc: 0,
            sp: 0xFF,
        };
        proof {
            assert forall|i: int| 0 <= i < 0x10000 implies c@.mem[i] == 0u8 by {
                assert(cloned(0u8, c@.mem[i]));
            }
            assert(c@.mem =~= spec_new().mem);
        }
        c
    }

    /// Reads one byte of the address space.
    pub fn read(&self, addr: u16) -> (b: u8)
        requires
            self@.wf(),
        ensures
            b == self@.mem[addr as int],
    {
        self.memory[addr as usize]
    }

    /// Resolves an addressing mode that names a memory cell.
    fn get_address(&mut self, mode: AddrModes) -> (addr: usize)
        requires
            old(self)@.wf(),
            is_addr_mode(mode),
        ensures
            final(self)@ == consumed(old(self)@, mode_bytes(mode)),
            addr == ea(old(self)@, mode),
            addr < 0x10000,
    {
        match mode {
            AddrModes::ZeroPage => self.fetch_zp(),
            AddrModes::ZeroPageX => self.fetch_zpx(),
            AddrModes::ZeroPageY => self.fetch_zpy(),
            AddrModes::Absolute => self.fetch_abs(),
            AddrModes::AbsoluteX => self.fetch_absx(),
            AddrModes::AbsoluteY => self.fetch_absy(),
            AddrModes::IndirectX => self.fetch_indirectx(),
            AddrModes::IndirectY => self.fetch_indirecty(),
            AddrModes::Indirect => self.fetch_indirect(),
            AddrModes::Immediate | AddrModes::Accumulator => {
                proof {
                    assert(false);
                }
                0
            },
        }
    }

    /// Produces the operand byte of a value-consuming instruction.
    fn get_value(&mut self, mode: AddrModes) -> (v: u8)
        requires
            old(self)@.wf(),
            !(mode is Accumulator),
        ensures
            final(self)@ == consumed(old(self)@, mode_bytes(mode)),
            v == operand(old(self)@, mode),
    {
        match mode {
            AddrModes::Immediate => self.fetch_next_byte(),
            _ => {
                let addr = self.get_address(mode);
                self.memory[addr]
            },
        }
    }

    /// Writes one byte of the address space.
    pub fn write(&mut self, addr: u16, val: u8)
        requires
            old(self)@.wf(),
        ensures
            final(self)@ == (CpuV { mem: old(self)@.mem.update(addr as int, val), ..old(self)@ }),
            final(self)@.wf(),
    {
        self.memory[addr as usize] = val;
    }

    fn adc(&mut self, mode: AddrModes)
        requires
            old(self)@.wf(),
            !(mode is Accumulator),
        ensures
            final(self)@ == adc_step(old(self)@, mode),
    {
        let val = self.get_value(mode);
        let carry_in: u16 = if self.flags.carry {
            1
        } else {
            0
        };
        let sum: u16 = self.rega as u16 + val as u16 + carry_in;
        let res: u8 = (sum % 0x100) as u8;
        self.flags.overflow = is_overflow(res, self.rega, val);
        self.flags.carry = sum >= 0x100;
        self.rega = res;
        self.flags.zero = res == 0;
        self.flags.negative = get_top_bit(res);
    }

    #[verifier::rlimit(50)]
    fn sbc(&mut self, mode: AddrModes)
        requires
            old(self)@.wf(),
            !(mode is Accumulator),
        ensures
            final(self)@ == sbc_step(old(self)@, mode),
    {
        let val = self.get_value(mode);
        let borrow_in: u16 = if self.flags.carry {
            0
        } else {
            1
        };
        let taken: u16 = val as u16 + borrow_in;
        let no_borrow = (self.rega as u16) >= taken;
        let res: u8 = self.rega.wrapping_sub(val).wrapping_sub(borrow_in as u8);
        self.flags.overflow = is_overflow(self.rega, val, res);
        self.rega = res;
        self.flags.carry = no_borrow;
        self.flags.zero = res == 0;
        self.flags.negative = get_top_bit(res);
    }

    fn and(&mut self, mode: AddrModes)
        requires
            old(self)@.wf(),
            !(mode is Accumulator),
        ensures
            final(self)@ == and_step(old(self)@, mode),
    {
        let val = self.get_value(mode);
        self.rega = self.rega & val;
        self.flags.zero = self.rega == 0;
        self.flags.negative = get_top_bit(self.rega);
    }

    fn or(&mut self, mode: AddrModes)
        requires
            old(self)@.wf(),
            !(mode is Accumulator),
        ensures
            final(self)@ == or_step(old(self)@, mode),
    {
        let val = self.get_value(mode);
        self.rega = self.rega | val;
        self.flags.zero = self.rega == 0;
        self.flags.negative = get_top_bit(self.rega);
    }

    fn eor(&mut self, mode: AddrModes)
        requires
            old(self)@.wf(),
            !(mode is Accumulator),
        ensures
            final(self)@ == eor_step(old(self)@, mode),
    {
        let value = self.get_value(mode);
        self.rega = self.rega ^ value;
        self.flags.zero = self.rega == 0;
        self.flags.negative = get_top_bit(self.rega);
    }

    fn cmp(&mut self, mode: AddrModes, register: Registers)
        requires
            old(self)@.wf(),
            !(mode is Accumulator),
        ensures
            final(self)@ == cmp_step(old(self)@, mode, register),
    {
        let val = self.get_value(mode);
        let to_compare = match register {
            Registers::A => self.rega,
            Registers::X => self.regx,
            Registers::Y => self.regy,
        };
        self.flags.set_for_cmp(to_compare, val);
    }

    fn bit(&mut self, mode: AddrModes)
        requires
            old(self)@.wf(),
            !(mode is Accumulator),
        ensures
            final(self)@ == bit_step(old(self)@, mode),
    {
        let val = self.get_value(mode);
        let res = self.rega & val;
        self.flags.zero = res == 0;
        self.flags.overflow = (val >> 6) & 1 == 1;
        self.flags.negative = get_top_bit(val);
    }

    fn ld_reg(&mut self, mode: AddrModes, reg: Registers)
        requires
            old(self)@.wf(),
            !(mode is Accumulator),
        ensures
            final(self)@ == ld_step(old(self)@, mode, reg),
    {
        let val = self.get_value(mode);
        match reg {
            Registers::A => self.rega = val,
            Registers::X => self.regx = val,
            Registers::Y => self.regy = val,
        };
        self.flags.zero = val == 0;
        self.flags.negative = get_top_bit(val);
    }

    fn store_reg(&mut self, mode: AddrModes, reg: Registers)
        requires
            old(self)@.wf(),
            is_addr_mode(mode),
        ensures
            final(self)@ == st_step(old(self)@, mode, reg),
    {
        let addr = self.get_address(mode);
        self.memory[addr] = match reg {
            Registers::A => self.rega,
            Registers::X => self.regx,
            Registers::Y => self.regy,
        };
    }

    fn transfer_reg(&mut self, from: TransferOption, to: TransferOption)
        requires
            old(self)@.wf(),
        ensures
            final(self)@ == transfer_step(old(self)@, from, to),
    {
        let val = match from {
            TransferOption::A => self.rega,
            TransferOption::X => self.regx,
            TransferOption::Y => self.regy,
            TransferOption::S => self.sp,
        };
        let to_stack = match to {
            TransferOption::A => {
                self.rega = val;
                false
            },
            TransferOption::X => {
                self.regx = val;
                false
            },
            TransferOption::Y => {
                self.regy = val;
                false
            },
            TransferOption::S => {
                self.sp = val;
                true
            },
        };
        if !to_stack {
            self.flags.zero = val == 0;
            self.flags.negative = get_top_bit(val);
        }
    }

    fn inc(&mut self, mode: AddrModes)
        requires
            old(self)@.wf(),
            is_addr_mode(mode),
        ensures
            final(self)@ == inc_step(old(self)@, mode),
    {
        let addr = self.get_address(mode);
        let res = self.memory[addr].wrapping_add(1);
        self.memory[addr] = res;
        self.flags.zero = res == 0;
        self.flags.negative = get_top_bit(res);
    }

    fn dec(&mut self, mode: AddrModes)
        requires
            old(self)@.wf(),
            is_addr_mode(mode),
        ensures
            final(self)@ == dec_step(old(self)@, mode),
    {
        let addr = self.get_address(mode);
        let res = self.memory[addr].wrapping_sub(1);
        self.memory[addr] = res;
        self.flags.zero = res == 0;
        self.flags.negative = get_top_bit(res);
    }

    fn inc_reg(&mut self, reg: Registers)
        requires
            old(self)@.wf(),
            !(reg is A),
        ensures
            final(self)@ == inc_reg_step(old(self)@, reg),
    {
        let affected = match reg {
            Registers::X => {
                self.regx = self.regx.wrapping_add(1);
                self.regx
            },
            Registers::Y => {
                self.regy = self.regy.wrapping_add(1);
                self.regy
            },
            Registers::A => {
                proof {
                    assert(false);
                }
                0
            },
        };
        self.flags.zero = affected == 0;
        self.flags.negative = get_top_bit(affected);
    }

    fn dec_reg(&mut self, reg: Registers)
        requires
            old(self)@.wf(),
            !(reg is A),
        ensures
            final(self)@ == dec_reg_step(old(self)@, reg),
    {
        let affected = match reg {
            Registers::X => {
                self.regx = self.regx.wrapping_sub(1);
                self.regx
            },
            Registers::Y => {
                self.regy = self.regy.wrapping_sub(1);
                self.regy
            },
            Registers::A => {
                proof {
                    assert(false);
                }
                0
            },
        };
        self.flags.zero = affected == 0;
        self.flags.negative = get_top_bit(affected);
    }

    fn asl(&mut self, mode: AddrModes)
        requires
            old(self)@.wf(),
            mode is Accumulator || is_addr_mode(mode),
        ensures
            final(self)@ == asl_step(old(self)@, mode),
    {
        match mode {
            AddrModes::Accumulator => {
                let carry = get_top_bit(self.rega);
                let res = self.rega << 1;
                self.rega = res;
                self.flags.zero = res == 0;
                self.flags.negative = get_top_bit(res);
                self.flags.carry = carry;
            },
            _ => {
                let addr = self.get_address(mode);
                let v = self.memory[addr];
                let carry = get_top_bit(v);
                let res = v << 1;
                self.memory[addr] = res;
                self.flags.zero = res == 0;
                self.flags.negative = get_top_bit(res);
                self.flags.carry = carry;
            },
        }
    }

    fn lsr(&mut self, mode: AddrModes)
        requires
            old(self)@.wf(),
            mode is Accumulator || is_addr_mode(mode),
        ensures
            final(self)@ == lsr_step(old(self)@, mode),
    {
        match mode {
            AddrModes::Accumulator => {
                let carry = check_bit(self.rega, 1);
                let res = self.rega >> 1;
                self.rega = res;
                self.flags.zero = res == 0;
                self.flags.negative = get_top_bit(res);
                self.flags.carry = carry;
            },
            _ => {
                let addr = self.get_address(mode);
                let v = self.memory[addr];
                let carry = check_bit(v, 1);
                let res = v >> 1;
                self.memory[addr] = res;
                self.flags.zero = res == 0;
                self.flags.negative = get_top_bit(res);
                self.flags.carry = carry;
            },
        }
    }

    fn ror_or_rol(&mut self, mode: AddrModes, is_ror: bool)
        requires
            old(self)@.wf(),
            mode is Accumulator || is_addr_mode(mode),
        ensures
            final(self)@ == rot_step(old(self)@, mode, is_ror),
    {
        let old_carry = self.flags.carry;
        match mode {
            AddrModes::Accumulator => {
                let v = self.rega;
                let carry = if is_ror {
                    check_bit(v, 1)
                } else {
                    get_top_bit(v)
                };
                let res = if is_ror {
                    (v >> 1) | (if old_carry {
                        0x80
                    } else {
                        0
                    })
                } else {
                    (v << 1) | (if old_carry {
                        1
                    } else {
                        0
                    })
                };
                self.rega = res;
                self.flags.zero = res == 0;
                self.flags.negative = get_top_bit(res);
                self.flags.carry = carry;
            },
            _ => {
                let addr = self.get_address(mode);
                let v = self.memory[addr];
                let carry = if is_ror {
                    check_bit(v, 1)
                } else {
                    get_top_bit(v)
                };
                let res = if is_ror {
                    (v >> 1) | (if old_carry {
                        0x80
                    } else {
                        0
                    })
                } else {
                    (v << 1) | (if old_carry {
                        1
                    } else {
                        0
                    })
                };
                self.memory[addr] = res;
                self.flags.zero = res == 0;
                self.flags.negative = get_top_bit(res);
                self.flags.carry = carry;
            },
        }
    }

    fn branch(&mut self, taken: bool)
        requires
            old(self)@.wf(),
        ensures
            final(self)@ == branch_step(old(self)@, taken),
    {
        let displace = self.fetch_next_byte();
        if taken {
            if displace < 0x80 {
                self.pc = self.pc.wrapping_add(displace as u16);
            } else {
                self.pc = self.pc.wrapping_sub(0x100 - displace as u16);
            }
        }
    }

    fn bcc_or_bcs(&mut self, branch_on_set: bool)
        requires
            old(self)@.wf(),
        ensures
            final(self)@ == branch_step(old(self)@, old(self)@.flags.carry == branch_on_set),
    {
        let taken = self.flags.carry == branch_on_set;
        self.branch(taken);
    }

    fn beq_or_bne(&mut self, should_be_zero: bool)
        requires
            old(self)@.wf(),
        ensures
            final(self)@ == branch_step(old(self)@, old(self)@.flags.zero == should_be_zero),
    {
        let taken = self.flags.zero == should_be_zero;
        self.branch(taken);
    }

    fn bmi(&mut self)
        requires
            old(self)@.wf(),
        ensures
            final(self)@ == branch_step(old(self)@, old(self)@.flags.negative),
    {
        let taken = self.flags.negative;
        self.branch(taken);
    }

    fn bpl(&mut self)
        requires
            old(self)@.wf(),
        ensures
            final(self)@ == branch_step(old(self)@, !old(self)@.flags.negative),
    {
        let taken = !self.flags.negative;
        self.branch(taken);
    }

    fn bvs_or_bvc(&mut self, check_for_set: bool)
        requires
            old(self)@.wf(),
        ensures
            final(self)@ == branch_step(old(self)@, old(self)@.flags.overflow == check_for_set),
    {
        let taken = self.flags.overflow == check_for_set;
        self.branch(taken);
    }

    fn jmp(&mut self, mode: AddrModes)
        requires
            old(self)@.wf(),
            mode is Absolute || mode is Indirect,
        ensures
            final(self)@ == jmp_step(old(self)@, mode),
    {
        let addr = self.get_address(mode);
        self.pc = addr as u16;
    }

    fn jsr(&mut self)
        requires
            old(self)@.wf(),
        ensures
            final(self)@ == jsr_step(old(self)@),
    {
        let target = self.fetch_abs();
        self.save_pc(false);
        self.pc = target as u16;
    }

    fn rts(&mut self)
        requires
            old(self)@.wf(),
        ensures
            final(self)@ == rts_step(old(self)@),
    {
        self.pull_pc();
        self.pc = self.pc.wrapping_add(1);
    }

    fn rti(&mut self)
        requires
            old(self)@.wf(),
        ensures
            final(self)@ == rti_step(old(self)@),
    {
        self.pull_register(false);
        self.pull_pc();
    }

    fn brk(&mut self)
        requires
            old(self)@.wf(),
        ensures
            final(self)@ == brk_step(old(self)@),
    {
        self.save_pc(false);
        self.save_status();
        let lower = self.memory[0xFFFE];
        let upper = self.memory[0xFFFF];
        self.pc = combine_bytes(upper as u16, lower as u16);
        self.flags.set_breaks();
    }

    /// Dispatches one decoded instruction into its handler.  The effect on
    /// the machine state is exactly `exec_step`.
    pub fn exec_instruction(&mut self, op: Ops)
        requires
            old(self)@.wf(),
        ensures
            final(self)@ == exec_step(old(self)@, op),
            final(self)@.wf(),
    {
        match op {
            Ops::AdcI | Ops::AdcZp | Ops::AdcZpX | Ops::AdcAbs | Ops::AdcAbsX | Ops::AdcAbsY
            | Ops::AdcIndX | Ops::AdcIndY | Ops::AndI | Ops::AndZp | Ops::AndZpX | Ops::AndAbs
            | Ops::AndAbsX | Ops::AndAbsY | Ops::AndIndX | Ops::AndIndY | Ops::EORI | Ops::EORZp
            | Ops::EORZpX | Ops::EORAbs | Ops::EORAbsX | Ops::EORAbsY | Ops::EORIndX
            | Ops::EORIndY | Ops::ORI | Ops::ORZp | Ops::ORZpX | Ops::ORAbs | Ops::ORAbsX
            | Ops::ORAbsY | Ops::ORIndX | Ops::ORIndY => self.exec_logic(op),
            Ops::AslAccum | Ops::AslZp | Ops::AslZpX | Ops::AslAbs | Ops::AslAbsX | Ops::LsrAccum
            | Ops::LsrZp | Ops::LsrZpX | Ops::LsrAbs | Ops::LsrAbsX | Ops::RolAccum | Ops::RolZp
            | Ops::RolZpX | Ops::RolAbs | Ops::RolAbsX | Ops::RorAccum | Ops::RorZp | Ops::RorZpX
            | Ops::RorAbs | Ops::RorAbsX | Ops::SbcI | Ops::SbcZp | Ops::SbcZpX | Ops::SbcAbs
            | Ops::SbcAbsX | Ops::SbcAbsY | Ops::SbcIndX | Ops::SbcIndY => self.exec_shift(op),
            Ops::Bcc | Ops::Bcs | Ops::Beq | Ops::Bne | Ops::Bmi | Ops::Bpl | Ops::Bvc | Ops::Bvs
            | Ops::BitZp | Ops::BitAbs | Ops::Brk | Ops::Clc | Ops::Cld | Ops::Cli | Ops::Clv
            | Ops::Sec | Ops::Sed | Ops::Sei | Ops::Nop | Ops::JmpAbs | Ops::JmpInd | Ops::Jsr
            | Ops::Rti | Ops::Rts => self.exec_flow(op),
            Ops::CmpI | Ops::CmpZp | Ops::CmpZpX | Ops::CmpAbs | Ops::CmpAbsX | Ops::CmpAbsY
            | Ops::CmpIndX | Ops::CmpIndY | Ops::CmpXI | Ops::CmpXZp | Ops::CmpXAbs | Ops::CmpYI
            | Ops::CmpYZp | Ops::CmpYAbs | Ops::DecZp | Ops::DecZpX | Ops::DecAbs | Ops::DecAbsX
            | Ops::DecX | Ops::DecY | Ops::IncZp | Ops::IncZpX | Ops::IncAbs | Ops::IncAbsX
            | Ops::IncX | Ops::IncY => self.exec_count(op),
            Ops::LdaI | Ops::LdaZp | Ops::LdaZpX | Ops::LdaAbs | Ops::LdaAbsX | Ops::LdaAbsY
            | Ops::LdaIndX | Ops::LdaIndY | Ops::LdxI | Ops::LdxZp | Ops::LdxZpY | Ops::LdxAbs
            | Ops::LdxAbsY | Ops::LdyI | Ops::LdyZp | Ops::LdyZpX | Ops::LdyAbs | Ops::LdyAbsX
            | Ops::StaZp | Ops::StaZpX | Ops::StaAbs | Ops::StaAbsX | Ops::StaAbsY | Ops::StaIndX
            | Ops::StaIndY | Ops::StxZp | Ops::StxZpY | Ops::StxAbs | Ops::StyZp | Ops::StyZpX
            | Ops::StyAbs => self.exec_move(op),
            Ops::Pha | Ops::Php | Ops::Pla | Ops::Plp | Ops::Tax | Ops::Tay | Ops::Tsx | Ops::Txa
            | Ops::Txs | Ops::Tya => self.exec_stack(op),
        }
    }

    /// The arithmetic and bitwise instructions on the accumulator.
    #[verifier::rlimit(100)]
    fn exec_logic(&mut self, op: Ops)
        requires
            old(self)@.wf(),
            op is AdcI || op is AdcZp || op is AdcZpX || op is AdcAbs || op is AdcAbsX
                || op is AdcAbsY || op is AdcIndX || op is AdcIndY || op is AndI || op is AndZp
                || op is AndZpX || op is AndAbs || op is AndAbsX || op is AndAbsY || op is AndIndX
                || op is AndIndY || op is EORI || op is EORZp || op is EORZpX || op is EORAbs
                || op is EORAbsX || op is EORAbsY || op is EORIndX || op is EORIndY || op is ORI
                || op is ORZp || op is ORZpX || op is ORAbs || op is ORAbsX || op is ORAbsY
                || op is ORIndX || op is ORIndY,
        ensures
            final(self)@ == exec_step(old(self)@, op),
            final(self)@.wf(),
    {
        match op {
            Ops::AdcI => self.adc(AddrModes::Immediate),
            Ops::AdcZp => self.adc(AddrModes::ZeroPage),
            Ops::AdcZpX => self.adc(AddrModes::ZeroPageX),
            Ops::AdcAbs => self.adc(AddrModes::Absolute),
            Ops::AdcAbsX => self.adc(AddrModes::AbsoluteX),
            Ops::AdcAbsY => self.adc(AddrModes::AbsoluteY),
            Ops::AdcIndX => self.adc(AddrModes::IndirectX),
            Ops::AdcIndY => self.adc(AddrModes::IndirectY),
            Ops::AndI => self.and(AddrModes::Immediate),
            Ops::AndZp => self.and(AddrModes::ZeroPage),
            Ops::AndZpX => self.and(AddrModes::ZeroPageX),
            Ops::AndAbs => self.and(AddrModes::Absolute),
            Ops::AndAbsX => self.and(AddrModes::AbsoluteX),
            Ops::AndAbsY => self.and(AddrModes::AbsoluteY),
            Ops::AndIndX => self.and(AddrModes::IndirectX),
            Ops::AndIndY => self.and(AddrModes::IndirectY),
            Ops::EORI => self.eor(AddrModes::Immediate),
            Ops::EORZp => self.eor(AddrModes::ZeroPage),
            Ops::EORZpX => self.eor(AddrModes::ZeroPageX),
            Ops::EORAbs => self.eor(AddrModes::Absolute),
            Ops::EORAbsX => self.eor(AddrModes::AbsoluteX),
            Ops::EORAbsY => self.eor(AddrModes::AbsoluteY),
            Ops::EORIndX => self.eor(AddrModes::IndirectX),
            Ops::EORIndY => self.eor(AddrModes::IndirectY),
            Ops::ORI => self.or(AddrModes::Immediate),
            Ops::ORZp => self.or(AddrModes::ZeroPage),
            Ops::ORZpX => self.or(AddrModes::ZeroPageX),
            Ops::ORAbs => self.or(AddrModes::Absolute),
            Ops::ORAbsX => self.or(AddrModes::AbsoluteX),
            Ops::ORAbsY => self.or(AddrModes::AbsoluteY),
            Ops::ORIndX => self.or(AddrModes::IndirectX),
            Ops::ORIndY => self.or(AddrModes::IndirectY),
            _ => {
                proof {
                    assert(false);
                }
            },
        }
    }

    /// The shift, rotate and subtract instructions.
    #[verifier::rlimit(100)]
    fn exec_shift(&mut self, op: Ops)
        requires
            old(self)@.wf(),
            op is AslAccum || op is AslZp || op is AslZpX || op is AslAbs || op is AslAbsX
                || op is LsrAccum || op is LsrZp || op is LsrZpX || op is LsrAbs || op is LsrAbsX
                || op is RolAccum || op is RolZp || op is RolZpX || op is RolAbs || op is RolAbsX
                || op is RorAccum || op is RorZp || op is RorZpX || op is RorAbs || op is RorAbsX
                || op is SbcI || op is SbcZp || op is SbcZpX || op is SbcAbs || op is SbcAbsX
                || op is SbcAbsY || op is SbcIndX || op is SbcIndY,
        ensures
            final(self)@ == exec_step(old(self)@, op),
            final(self)@.wf(),
    {
        match op {
            Ops::AslAccum => self.asl(AddrModes::Accumulator),
            Ops::AslZp => self.asl(AddrModes::ZeroPage),
            Ops::AslZpX => self.asl(AddrModes::ZeroPageX),
            Ops::AslAbs => self.asl(AddrModes::Absolute),
            Ops::AslAbsX => self.asl(AddrModes::AbsoluteX),
            Ops::LsrAccum => self.lsr(AddrModes::Accumulator),
            Ops::LsrZp => self.lsr(AddrModes::ZeroPage),
            Ops::LsrZpX => self.lsr(AddrModes::ZeroPageX),
            Ops::LsrAbs => self.lsr(AddrModes::Absolute),
            Ops::LsrAbsX => self.lsr(AddrModes::AbsoluteX),
            Ops::RolAccum => self.ror_or_rol(AddrModes::Accumulator, false),
            Ops::RolZp => self.ror_or_rol(AddrModes::ZeroPage, false),
            Ops::RolZpX => self.ror_or_rol(AddrModes::ZeroPageX, false),
            Ops::RolAbs => self.ror_or_rol(AddrModes::Absolute, false),
            Ops::RolAbsX => self.ror_or_rol(AddrModes::AbsoluteX, false),
            Ops::RorAccum => self.ror_or_rol(AddrModes::Accumulator, true),
            Ops::RorZp => self.ror_or_rol(AddrModes::ZeroPage, true),
            Ops::RorZpX => self.ror_or_rol(AddrModes::ZeroPageX, true),
            Ops::RorAbs => self.ror_or_rol(AddrModes::Absolute, true),
            Ops::RorAbsX => self.ror_or_rol(AddrModes::AbsoluteX, true),
            Ops::SbcI => self.sbc(AddrModes::Immediate),
            Ops::SbcZp => self.sbc(AddrModes::ZeroPage),
            Ops::SbcZpX => self.sbc(AddrModes::ZeroPageX),
            Ops::SbcAbs => self.sbc(AddrModes::Absolute),
            Ops::SbcAbsX => self.sbc(AddrModes::AbsoluteX),
            Ops::SbcAbsY => self.sbc(AddrModes::AbsoluteY),
            Ops::SbcIndX => self.sbc(AddrModes::IndirectX),
            Ops::SbcIndY => self.sbc(AddrModes::IndirectY),
            _ => {
                proof {
                    assert(false);
                }
            },
        }
    }

    /// Branches, bit tests, flag writes, jumps, returns, the break and the
    /// no-op.
    #[verifier::rlimit(100)]
    fn exec_flow(&mut self, op: Ops)
        requires
            old(self)@.wf(),
            op is Bcc || op is Bcs || op is Beq || op is Bne || op is Bmi || op is Bpl
                || op is Bvc || op is Bvs || op is BitZp || op is BitAbs || op is Brk || op is Clc
                || op is Cld || op is Cli || op is Clv || op is Sec || op is Sed || op is Sei
                || op is Nop || op is JmpAbs || op is JmpInd || op is Jsr || op is Rti
                || op is Rts,
        ensures
            final(self)@ == exec_step(old(self)@, op),
            final(self)@.wf(),
    {
        match op {
            Ops::Bcc => self.bcc_or_bcs(false),
            Ops::Bcs => self.bcc_or_bcs(true),
            Ops::Beq => self.beq_or_bne(true),
            Ops::Bne => self.beq_or_bne(false),
            Ops::Bmi => self.bmi(),
            Ops::Bpl => self.bpl(),
            Ops::Bvs => self.bvs_or_bvc(true),
            Ops::Bvc => self.bvs_or_bvc(false),
            Ops::BitAbs => self.bit(AddrModes::Absolute),
            Ops::BitZp => self.bit(AddrModes::ZeroPage),
            Ops::Brk => self.brk(),
            Ops::Clc => self.flags.carry = false,
            Ops::Cld => self.flags.decimal = false,
            Ops::Cli => self.flags.inter_disable = false,
            Ops::Clv => self.flags.overflow = false,
            Ops::Sec => self.flags.carry = true,
            Ops::Sed => self.flags.decimal = true,
            Ops::Sei => self.flags.inter_disable = true,
            Ops::Nop => {},
            Ops::JmpInd => self.jmp(AddrModes::Indirect),
            Ops::JmpAbs => self.jmp(AddrModes::Absolute),
            Ops::Jsr => self.jsr(),
            Ops::Rti => self.rti(),
            Ops::Rts => self.rts(),
            _ => {
                proof {
                    assert(false);
                }
            },
        }
    }

    /// The compare, increment and decrement instructions.
    #[verifier::rlimit(100)]
    fn exec_count(&mut self, op: Ops)
        requires
            old(self)@.wf(),
            op is CmpI || op is CmpZp || op is CmpZpX || op is CmpAbs || op is CmpAbsX
                || op is CmpAbsY || op is CmpIndX || op is CmpIndY || op is CmpXI || op is CmpXZp
                || op is CmpXAbs || op is CmpYI || op is CmpYZp || op is CmpYAbs || op is DecZp
                || op is DecZpX || op is DecAbs || op is DecAbsX || op is DecX || op is DecY
                || op is IncZp || op is IncZpX || op is IncAbs || op is IncAbsX || op is IncX
                || op is IncY,
        ensures
            final(self)@ == exec_step(old(self)@, op),
            final(self)@.wf(),
    {
        match op {
            Ops::CmpI => self.cmp(AddrModes::Immediate, Registers::A),
            Ops::CmpZp => self.cmp(AddrModes::ZeroPage, Registers::A),
            Ops::CmpZpX => self.cmp(AddrModes::ZeroPageX, Registers::A),
            Ops::CmpAbs => self.cmp(AddrModes::Absolute, Registers::A),
            Ops::CmpAbsX => self.cmp(AddrModes::AbsoluteX, Registers::A),
            Ops::CmpAbsY => self.cmp(AddrModes::AbsoluteY, Registers::A),
            Ops::CmpIndX => self.cmp(AddrModes::IndirectX, Registers::A),
            Ops::CmpIndY => self.cmp(AddrModes::IndirectY, Registers::A),
            Ops::CmpXI => self.cmp(AddrModes::Immediate, Registers::X),
            Ops::CmpXZp => self.cmp(AddrModes::ZeroPage, Registers::X),
            Ops::CmpXAbs => self.cmp(AddrModes::Absolute, Registers::X),
            Ops::CmpYI => self.cmp(AddrModes::Immediate, Registers::Y),
            Ops::CmpYZp => self.cmp(AddrModes::ZeroPage, Registers::Y),
            Ops::CmpYAbs => self.cmp(AddrModes::Absolute, Registers::Y),
            Ops::DecZp => self.dec(AddrModes::ZeroPage),
            Ops::DecZpX => self.dec(AddrModes::ZeroPageX),
            Ops::DecAbs => self.dec(AddrModes::Absolute),
            Ops::DecAbsX => self.dec(AddrModes::AbsoluteX),
            Ops::DecX => self.dec_reg(Registers::X),
            Ops::DecY => self.dec_reg(Registers::Y),
            Ops::IncZp => self.inc(AddrModes::ZeroPage),
            Ops::IncZpX => self.inc(AddrModes::ZeroPageX),
            Ops::IncAbs => self.inc(AddrModes::Absolute),
            Ops::IncAbsX => self.inc(AddrModes::AbsoluteX),
            Ops::IncX => self.inc_reg(Registers::X),
            Ops::IncY => self.inc_reg(Registers::Y),
            _ => {
                proof {
                    assert(false);
                }
            },
        }
    }

    /// The load and store instructions.
    #[verifier::rlimit(100)]
    fn exec_move(&mut self, op: Ops)
        requires
            old(self)@.wf(),
            op is LdaI || op is LdaZp || op is LdaZpX || op is LdaAbs || op is LdaAbsX
                || op is LdaAbsY || op is LdaIndX || op is LdaIndY || op is LdxI || op is LdxZp
                || op is LdxZpY || op is LdxAbs || op is LdxAbsY || op is LdyI || op is LdyZp
                || op is LdyZpX || op is LdyAbs || op is LdyAbsX || op is StaZp || op is StaZpX
                || op is StaAbs || op is StaAbsX || op is StaAbsY || op is StaIndX
                || op is StaIndY || op is StxZp || op is StxZpY || op is StxAbs || op is StyZp
                || op is StyZpX || op is StyAbs,
        ensures
            final(self)@ == exec_step(old(self)@, op),
            final(self)@.wf(),
    {
        match op {
            Ops::LdaI => self.ld_reg(AddrModes::Immediate, Registers::A),
            Ops::LdaZp => self.ld_reg(AddrModes::ZeroPage, Registers::A),
            Ops::LdaZpX => self.ld_reg(AddrModes::ZeroPageX, Registers::A),
            Ops::LdaAbs => self.ld_reg(AddrModes::Absolute, Registers::A),
            Ops::LdaAbsX => self.ld_reg(AddrModes::AbsoluteX, Registers::A),
            Ops::LdaAbsY => self.ld_reg(AddrModes::AbsoluteY, Registers::A),
            Ops::LdaIndX => self.ld_reg(AddrModes::IndirectX, Registers::A),
            Ops::LdaIndY => self.ld_reg(AddrModes::IndirectY, Registers::A),
            Ops::LdxI => self.ld_reg(AddrModes::Immediate, Registers::X),
            Ops::LdxZp => self.ld_reg(AddrModes::ZeroPage, Registers::X),
            Ops::LdxZpY => self.ld_reg(AddrModes::ZeroPageY, Registers::X),
            Ops::LdxAbs => self.ld_reg(AddrModes::Absolute, Registers::X),
            Ops::LdxAbsY => self.ld_reg(AddrModes::AbsoluteY, Registers::X),
            Ops::LdyI => self.ld_reg(AddrModes::Immediate, Registers::Y),
            Ops::LdyZp => self.ld_reg(AddrModes::ZeroPage, Registers::Y),
            Ops::LdyZpX => self.ld_reg(AddrModes::ZeroPageX, Registers::Y),
            Ops::LdyAbs => self.ld_reg(AddrModes::Absolute, Registers::Y),
            Ops::LdyAbsX => self.ld_reg(AddrModes::AbsoluteX, Registers::Y),
            Ops::StaZp => self.store_reg(AddrModes::ZeroPage, Registers::A),
            Ops::StaZpX => self.store_reg(AddrModes::ZeroPageX, Registers::A),
            Ops::StaAbs => self.store_reg(AddrModes::Absolute, Registers::A),
            Ops::StaAbsX => self.store_reg(AddrModes::AbsoluteX, Registers::A),
            Ops::StaAbsY => self.store_reg(AddrModes::AbsoluteY, Registers::A),
            Ops::StaIndX => self.store_reg(AddrModes::IndirectX, Registers::A),
            Ops::StaIndY => self.store_reg(AddrModes::IndirectY, Registers::A),
            Ops::StxZp => self.store_reg(AddrModes::ZeroPage, Registers::X),
            Ops::StxZpY => self.store_reg(AddrModes::ZeroPageY, Registers::X),
            Ops::StxAbs => self.store_reg(AddrModes::Absolute, Registers::X),
            Ops::StyZp => self.store_reg(AddrModes::ZeroPage, Registers::Y),
            Ops::StyZpX => self.store_reg(AddrModes::ZeroPageX, Registers::Y),
            Ops::StyAbs => self.store_reg(AddrModes::Absolute, Registers::Y),
            _ => {
                proof {
                    assert(false);
                }
            },
        }
    }

    /// The stack and transfer instructions.
    #[verifier::rlimit(100)]
    fn exec_stack(&mut self, op: Ops)
        requires
            old(self)@.wf(),
            op is Pha || op is Php || op is Pla || op is Plp || op is Tax || op is Tay
                || op is Tsx || op is Txa || op is Txs || op is Tya,
        ensures
            final(self)@ == exec_step(old(self)@, op),
            final(self)@.wf(),
    {
        match op {
            Ops::Pha => {
                let a = self.rega;
                self.push_stack(a);
            },
            Ops::Php => self.save_status(),
            Ops::Pla => self.pull_register(true),
            Ops::Plp => self.pull_register(false),
            Ops::Tax => self.transfer_reg(TransferOption::A, TransferOption::X),
            Ops::Tay => self.transfer_reg(TransferOption::A, TransferOption::Y),
            Ops::Tsx => self.transfer_reg(TransferOption::S, TransferOption::X),
            Ops::Txa => self.transfer_reg(TransferOption::X, TransferOption::A),
            Ops::Txs => self.transfer_reg(TransferOption::X, TransferOption::S),
            Ops::Tya => self.transfer_reg(TransferOption::Y, TransferOption::A),
            _ => {
                proof {
                    assert(false);
                }
            },
        }
    }

    /// Whether an instruction loads the program counter itself.
    fn is_jump(op: Ops) -> (r: bool)
        ensures
            r == sets_pc(op),
    {
        match op {
            Ops::JmpAbs | Ops::JmpInd | Ops::Jsr | Ops::Brk | Ops::Rti | Ops::Rts => true,
            _ => false,
        }
    }

    /// Executes one instruction: reads the opcode at the program counter,
    /// decodes it, runs it and leaves the program counter on the next
    /// opcode.  An illegal byte is reported with the program counter
    /// already advanced past it and everything else untouched.
    pub fn step(&mut self) -> (r: Result<(), CpuError>)
        requires
            old(self)@.wf(),
        ensures
            final(self)@.wf(),
            ({
                let b = old(self)@.mem[old(self)@.pc as int];
                match spec_decode(b) {
                    Some(op) => r == Ok::<(), CpuError>(()) && final(self)@ == step_result(
                        old(self)@,
                        op,
                    ),
                    None => r == Err::<(), CpuError>(CpuError::IllegalOpcode(b)) && final(self)@
                        == consumed(old(self)@, 1),
                }
            }),
    {
        let b = self.memory[self.pc as usize];
        match Ops::from_byte(b) {
            Some(op) => {
                self.exec_instruction(op);
                if !Self::is_jump(op) {
                    self.pc = self.pc.wrapping_add(1);
                }
                Ok(())
            },
            None => {
                self.pc = self.pc.wrapping_add(1);
                Err(CpuError::IllegalOpcode(b))
            },
        }
    }

    fn pull_register(&mut self, pull_accum: bool)
        requires
            old(self)@.wf(),
        ensures
            pull_accum ==> final(self)@ == pla_step(old(self)@),
            !pull_accum ==> final(self)@ == plp_step(old(self)@),
    {
        let popped = self.pop_stack();
        if pull_accum {
            self.rega = popped;
            self.flags.zero = popped == 0;
            self.flags.negative = get_top_bit(popped);
        } else {
            self.flags = Flags::from_byte(popped);
        }
    }
}

/// The arithmetic instructions wrap: the accumulator after ADC and SBC is
/// the nine-bit result reduced modulo 256.
pub proof fn lemma_arith_wraps(c: CpuV, mode: AddrModes)
    requires
        c.wf(),
        !(mode is Accumulator),
    ensures
        adc_step(c, mode).a == (c.a + operand(c, mode) + bval(c.flags.carry)) % 0x100,
        sbc_step(c, mode).a == (c.a - operand(c, mode) - bval(!c.flags.carry)) % 0x100,
{
}

/// Increments and decrements wrap, on memory cells and on the index
/// registers alike.
pub proof fn lemma_count_wraps(c: CpuV, mode: AddrModes, r: Registers)
    requires
        c.wf(),
        is_addr_mode(mode),
        !(r is A),
    ensures
        inc_step(c, mode).mem[ea(c, mode)] == (c.mem[ea(c, mode)] + 1) % 0x100,
        dec_step(c, mode).mem[ea(c, mode)] == (c.mem[ea(c, mode)] - 1) % 0x100,
        reg_val(inc_reg_step(c, r), r) == (reg_val(c, r) + 1) % 0x100,
        reg_val(dec_reg_step(c, r), r) == (reg_val(c, r) - 1) % 0x100,
{
    assert(ea(c, mode) < 0x10000);
}

/// Index arithmetic wraps: zero-page indexing modulo 256, absolute
/// indexing modulo 65536.
pub proof fn lemma_index_wraps(c: CpuV)
    requires
        c.wf(),
    ensures
        ea_zpx(c) == (op1(c) + c.x) % 0x100,
        ea_zpy(c) == (op1(c) + c.y) % 0x100,
        ea_absx(c) == (ea_abs(c) + c.x) % 0x10000,
        ea_absy(c) == (ea_abs(c) + c.y) % 0x10000,
{
}

/// After ADC the overflow flag is exactly the signed-overflow formula over
/// the result byte and the two addends.
pub proof fn lemma_adc_overflow(c: CpuV, mode: AddrModes)
    requires
        c.wf(),
        !(mode is Accumulator),
    ensures
        ({
            let m = operand(c, mode);
            let res = w8(c.a + m + bval(c.flags.carry));
            adc_step(c, mode).flags.overflow == ((c.a ^ res) & (m ^ res) & 0x80 != 0)
        }),
{
}

/// After a compare, carry, zero and negative state exactly how the
/// register stands to the operand.
pub proof fn lemma_cmp_ordering(c: CpuV, mode: AddrModes, r: Registers)
    requires
        c.wf(),
        !(mode is Accumulator),
    ensures
        cmp_step(c, mode, r).flags.carry == (reg_val(c, r) >= operand(c, mode)),
        cmp_step(c, mode, r).flags.zero == (reg_val(c, r) == operand(c, mode)),
        cmp_step(c, mode, r).flags.negative == (reg_val(c, r) < operand(c, mode)),
{
}

/// BIT sets zero from A AND the operand, copies bits 7 and 6 of the
/// operand into negative and overflow, and leaves the accumulator alone.
pub proof fn lemma_bit_semantics(c: CpuV, mode: AddrModes)
    requires
        c.wf(),
        !(mode is Accumulator),
    ensures
        bit_step(c, mode).flags.zero == (c.a & operand(c, mode) == 0),
        bit_step(c, mode).flags.negative == bit_set(operand(c, mode), 7),
        bit_step(c, mode).flags.overflow == bit_set(operand(c, mode), 6),
        bit_step(c, mode).a == c.a,
{
    let m = operand(c, mode);
    assert(bit_set(m, 7) == (m >= 0x80)) by (bit_vector);
}

/// A break followed by a matching return from interrupt restores the
/// program counter, the status register, the stack pointer and every
/// register: the pushed status byte precedes the break flags being set,
/// so nothing of the interrupted state is lost.
pub proof fn lemma_brk_rti(c: CpuV)
    requires
        c.wf(),
    ensures
        rti_step(brk_step(c)).pc == c.pc,
        rti_step(brk_step(c)).flags == c.flags,
        rti_step(brk_step(c)).sp == c.sp,
        rti_step(brk_step(c)).a == c.a,
        rti_step(brk_step(c)).x == c.x,
        rti_step(brk_step(c)).y == c.y,
{
    let c1 = brk_step(c);
    let hi_addr = 0x100 + c.sp as int;
    let lo_addr = 0x100 + w8(c.sp - 1) as int;
    let st_addr = 0x100 + w8(c.sp - 2) as int;
    assert(c1.mem[st_addr] == spec_to_byte(c.flags));
    assert(c1.mem[lo_addr] == w8(c.pc as int));
    assert(c1.mem[hi_addr] == w8(c.pc as int / 0x100));
    assert(0x100 + w8(c1.sp + 1) as int == st_addr);
    crate::flags::lemma_pack_unpack(c.flags);
    let c2 = plp_step(c1);
    assert(c2.flags == c.flags);
    assert(0x100 + w8(c2.sp + 1) as int == lo_addr);
    assert(0x100 + w8(c2.sp + 2) as int == hi_addr);
    assert(pulled_pc(c2) == c.pc);
}

} // verus!

