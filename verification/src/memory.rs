//! The address-space layer: operand fetches, effective-address resolution
//! and the page-one hardware stack.
//!
//! Operand fetches use the convention of the execution engine: on entry the
//! program counter still points at the opcode byte, so the first operand
//! byte lives at `pc + 1`.  Each fetch advances the program counter over
//! the bytes it consumes, with 16-bit wrap-around.
//!
//! Two-byte operands are little-endian: the low byte is fetched first.
//! Zero-page pointers wrap within the zero page.

use vstd::prelude::*;
use crate::cpu::Cpu;
use crate::cpu::CpuV;
use crate::utils::combine_bytes;
use crate::utils::split_bytes;

verus! {

/// Reduction to 16 bits, the wrap-around of address arithmetic.
pub open spec fn w16(v: int) -> u16 {
    (v % 0x10000) as u16
}

/// Reduction to 8 bits, the wrap-around of byte arithmetic.
pub open spec fn w8(v: int) -> u8 {
    (v % 0x100) as u8
}

/// The state after consuming `n` further instruction bytes: only the
/// program counter moves.
pub open spec fn consumed(c: CpuV, n: int) -> CpuV {
    CpuV { pc: w16(c.pc + n), ..c }
}

/// The first operand byte, at `pc + 1`.
pub open spec fn op1(c: CpuV) -> u8 {
    c.mem[w16(c.pc + 1) as int]
}

/// The second operand byte, at `pc + 2`.
pub open spec fn op2(c: CpuV) -> u8 {
    c.mem[w16(c.pc + 2) as int]
}

/// The 16-bit word stored little-endian at zero-page address `p`, the
/// second byte read with zero-page wrap.
pub open spec fn read16_zp(c: CpuV, p: int) -> int {
    c.mem[p % 0x100] + c.mem[(p + 1) % 0x100] * 0x100
}

/// The 16-bit word stored little-endian at address `p`, with 16-bit wrap.
pub open spec fn read16(c: CpuV, p: int) -> int {
    c.mem[p % 0x10000] + c.mem[(p + 1) % 0x10000] * 0x100
}

/// Effective address of the zero-page mode.
pub open spec fn ea_zp(c: CpuV) -> int {
    op1(c) as int
}

/// Effective address of the zero-page,X mode.
pub open spec fn ea_zpx(c: CpuV) -> int {
    (op1(c) + c.x) % 0x100
}

/// Effective address of the zero-page,Y mode.
pub open spec fn ea_zpy(c: CpuV) -> int {
    (op1(c) + c.y) % 0x100
}

/// Effective address of the absolute mode: low byte first, then high.
pub open spec fn ea_abs(c: CpuV) -> int {
    op1(c) + op2(c) * 0x100
}

/// Effective address of the absolute,X mode.
pub open spec fn ea_absx(c: CpuV) -> int {
    (ea_abs(c) + c.x) % 0x10000
}

/// Effective address of the absolute,Y mode.
pub open spec fn ea_absy(c: CpuV) -> int {
    (ea_abs(c) + c.y) % 0x10000
}

/// Effective address of the indirect mode: the pointer named by the
/// absolute operand is dereferenced.
pub open spec fn ea_ind(c: CpuV) -> int {
    read16(c, ea_abs(c))
}

/// Effective address of the indexed-indirect mode: X is added to the
/// zero-page operand, and the two-byte pointer there is read.
pub open spec fn ea_indx(c: CpuV) -> int {
    read16_zp(c, (op1(c) + c.x) % 0x100)
}

/// Effective address of the indirect-indexed mode: the two-byte pointer at
/// the zero-page operand is read, and Y is added to it.
pub open spec fn ea_indy(c: CpuV) -> int {
    (read16_zp(c, op1(c) as int) + c.y) % 0x10000
}

/// The state after pushing one byte: the byte lands at `0x0100 + sp` and
/// the stack pointer steps down with 8-bit wrap.
pub open spec fn push_spec(c: CpuV, b: u8) -> CpuV {
    CpuV { mem: c.mem.update(0x100 + c.sp, b), sp: w8(c.sp - 1), ..c }
}

/// The byte the next pop would return: the cell just above the stack
/// pointer.
pub open spec fn peek_spec(c: CpuV) -> u8 {
    c.mem[0x100 + w8(c.sp + 1) as int]
}

/// The state after popping one byte: only the stack pointer moves.
pub open spec fn pop_spec(c: CpuV) -> CpuV {
    CpuV { sp: w8(c.sp + 1), ..c }
}

/// The state after pushing a 16-bit word: high byte first, low byte on top.
pub open spec fn push16_spec(c: CpuV, v: int) -> CpuV {
    push_spec(push_spec(c, w8(v / 0x100)), w8(v))
}

/// The state after saving the program counter to the stack, minus one if
/// `dec` is set.
pub open spec fn save_pc_spec(c: CpuV, dec: bool) -> CpuV {
    push16_spec(c, if dec { w16(c.pc - 1) as int } else { c.pc as int })
}

/// The word a `pull_pc` would reconstruct: low byte off the top of the
/// stack, high byte from the cell below it.
pub open spec fn pulled_pc(c: CpuV) -> int {
    c.mem[0x100 + w8(c.sp + 2) as int] * 0x100 + c.mem[0x100 + w8(c.sp + 1) as int]
}

/// The state after restoring the program counter from the stack.
pub open spec fn pull_pc_spec(c: CpuV) -> CpuV {
    CpuV { sp: w8(c.sp + 2), pc: pulled_pc(c) as u16, ..c }
}

/// The operand-fetch, effective-address and stack operations of the
/// address space: the memory-access seam of the core.  `Cpu` implements
/// it over its flat 64 KiB array; the contracts are stated against the
/// machine-state view that every implementor exposes.
pub trait MemoryOps: View<V = CpuV> {

    /// Advances the program counter and returns the byte it then points at.
    fn fetch_next_byte(&mut self) -> (b: u8)
        requires
            old(self)@.wf(),
        ensures
            final(self)@ == consumed(old(self)@, 1),
            b == op1(old(self)@),
    ;

    /// Consumes the two operand bytes after the opcode, returning them in
    /// fetch order.
    fn fetch_two_bytes(&mut self) -> (r: (u8, u8))
        requires
            old(self)@.wf(),
        ensures
            final(self)@ == consumed(old(self)@, 2),
            r.0 == op1(old(self)@),
            r.1 == op2(old(self)@),
    ;

    /// Resolves the zero-page mode.
    fn fetch_zp(&mut self) -> (addr: usize)
        requires
            old(self)@.wf(),
        ensures
            final(self)@ == consumed(old(self)@, 1),
            addr == ea_zp(old(self)@),
    ;

    /// Resolves the zero-page,X mode: the index wraps within the zero page.
    fn fetch_zpx(&mut self) -> (addr: usize)
        requires
            old(self)@.wf(),
        ensures
            final(self)@ == consumed(old(self)@, 1),
            addr == ea_zpx(old(self)@),
    ;

    /// Resolves the zero-page,Y mode: the index wraps within the zero page.
    fn fetch_zpy(&mut self) -> (addr: usize)
        requires
            old(self)@.wf(),
        ensures
            final(self)@ == consumed(old(self)@, 1),
            addr == ea_zpy(old(self)@),
    ;

    /// Resolves the absolute mode: low byte first, then high.
    fn fetch_abs(&mut self) -> (addr: usize)
        requires
            old(self)@.wf(),
        ensures
            final(self)@ == consumed(old(self)@, 2),
            addr == ea_abs(old(self)@),
            addr < 0x10000,
    ;

    /// Resolves the absolute,X mode, with 16-bit wrap.
    fn fetch_absx(&mut self) -> (addr: usize)
        requires
            old(self)@.wf(),
        ensures
            final(self)@ == consumed(old(self)@, 2),
            addr == ea_absx(old(self)@),
            addr < 0x10000,
    ;

    /// Resolves the absolute,Y mode, with 16-bit wrap.
    fn fetch_absy(&mut self) -> (addr: usize)
        requires
            old(self)@.wf(),
        ensures
            final(self)@ == consumed(old(self)@, 2),
            addr == ea_absy(old(self)@),
            addr < 0x10000,
    ;

    /// Resolves the indirect mode: dereferences the two-byte pointer named
    /// by the absolute operand.
    fn fetch_indirect(&mut self) -> (addr: usize)
        requires
            old(self)@.wf(),
        ensures
            final(self)@ == consumed(old(self)@, 2),
            addr == ea_ind(old(self)@),
            addr < 0x10000,
    ;

    /// Resolves the indexed-indirect mode: X is added to the zero-page
    /// operand and the two-byte pointer there is read, wrapping within the
    /// zero page.
    fn fetch_indirectx(&mut self) -> (addr: usize)
        requires
            old(self)@.wf(),
        ensures
            final(self)@ == consumed(old(self)@, 1),
            addr == ea_indx(old(self)@),
            addr < 0x10000,
    ;

    /// Resolves the indirect-indexed mode: the two-byte pointer at the
    /// zero-page operand is read, and Y is added to the resolved address
    /// with 16-bit wrap.
    fn fetch_indirecty(&mut self) -> (addr: usize)
        requires
            old(self)@.wf(),
        ensures
            final(self)@ == consumed(old(self)@, 1),
            addr == ea_indy(old(self)@),
            addr < 0x10000,
    ;

    /// Pushes one byte onto the hardware stack.
    fn push_stack(&mut self, item: u8)
        requires
            old(self)@.wf(),
        ensures
            final(self)@ == push_spec(old(self)@, item),
            final(self)@.wf(),
    ;

    /// Pops one byte off the hardware stack.
    fn pop_stack(&mut self) -> (b: u8)
        requires
            old(self)@.wf(),
        ensures
            final(self)@ == pop_spec(old(self)@),
            b == peek_spec(old(self)@),
    ;

    /// Returns the most recently pushed byte without moving the stack
    /// pointer.
    fn peek_stack(&self) -> (b: u8)
        requires
            self@.wf(),
        ensures
            b == peek_spec(self@),
    ;

    /// Saves the program counter to the stack, high byte first, minus one
    /// if `dec` is set.
    fn save_pc(&mut self, dec: bool)
        requires
            old(self)@.wf(),
        ensures
            final(self)@ == save_pc_spec(old(self)@, dec),
            final(self)@.wf(),
    ;

    /// Pushes the packed status byte.
    fn save_status(&mut self)
        requires
            old(self)@.wf(),
        ensures
            final(self)@ == push_spec(old(self)@, crate::flags::spec_to_byte(old(self)@.flags)),
            final(self)@.wf(),
    ;

    /// Restores the program counter from the stack: low byte off the top,
    /// then the high byte.
    fn pull_pc(&mut self)
        requires
            old(self)@.wf(),
        ensures
            final(self)@ == pull_pc_spec(old(self)@),
    ;
}

impl MemoryOps for Cpu {
    fn fetch_next_byte(&mut self) -> (b: u8)
    {
        self.pc = self.pc.wrapping_add(1);
        self.memory[self.pc as usize]
    }

    fn fetch_two_bytes(&mut self) -> (r: (u8, u8))
    {
        let ghost c = self@;
        let b1 = self.fetch_next_byte();
        let b2 = self.fetch_next_byte();
        proof {
            assert(op1(consumed(c, 1)) == op2(c));
            assert(consumed(consumed(c, 1), 1) == consumed(c, 2));
        }
        (b1, b2)
    }

    fn fetch_zp(&mut self) -> (addr: usize)
    {
        self.fetch_next_byte() as usize
    }

    fn fetch_zpx(&mut self) -> (addr: usize)
    {
        let b = self.fetch_next_byte();
        b.wrapping_add(self.regx) as usize
    }

    fn fetch_zpy(&mut self) -> (addr: usize)
    {
        let b = self.fetch_next_byte();
        b.wrapping_add(self.regy) as usize
    }

    fn fetch_abs(&mut self) -> (addr: usize)
    {
        let (lower, upper) = self.fetch_two_bytes();
        combine_bytes(upper as u16, lower as u16) as usize
    }

    fn fetch_absx(&mut self) -> (addr: usize)
    {
        let base = self.fetch_abs();
        (base + self.regx as usize) % 0x10000
    }

    fn fetch_absy(&mut self) -> (addr: usize)
    {
        let base = self.fetch_abs();
        (base + self.regy as usize) % 0x10000
    }

    fn fetch_indirect(&mut self) -> (addr: usize)
    {
        let p = self.fetch_abs();
        let lower = self.memory[p];
        let upper = self.memory[(p + 1) % 0x10000];
        combine_bytes(upper as u16, lower as u16) as usize
    }

    fn fetch_indirectx(&mut self) -> (addr: usize)
    {
        let b = self.fetch_next_byte();
        let zp = b.wrapping_add(self.regx);
        let lower = self.memory[zp as usize];
        let upper = self.memory[zp.wrapping_add(1) as usize];
        combine_bytes(upper as u16, lower as u16) as usize
    }

    fn fetch_indirecty(&mut self) -> (addr: usize)
    {
        let zp = self.fetch_next_byte();
        let lower = self.memory[zp as usize];
        let upper = self.memory[zp.wrapping_add(1) as usize];
        let base = combine_bytes(upper as u16, lower as u16) as usize;
        (base + self.regy as usize) % 0x10000
    }

    fn push_stack(&mut self, item: u8)
    {
        self.memory[0x100 + self.sp as usize] = item;
        self.sp = self.sp.wrapping_sub(1);
    }

    fn pop_stack(&mut self) -> (b: u8)
    {
        let val = self.peek_stack();
        self.sp = self.sp.wrapping_add(1);
        val
    }

    fn peek_stack(&self) -> (b: u8)
    {
        self.memory[0x100 + self.sp.wrapping_add(1) as usize]
    }

    fn save_pc(&mut self, dec: bool)
    {
        let val = if dec {
            self.pc.wrapping_sub(1)
        } else {
            self.pc
        };
        let (upper, lower) = split_bytes(val);
        self.push_stack(upper);
        self.push_stack(lower);
    }

    fn save_status(&mut self)
    {
        let b = self.flags.to_u8();
        self.push_stack(b);
    }

    fn pull_pc(&mut self)
    {
        let lower = self.pop_stack();
        let upper = self.pop_stack();
        self.pc = combine_bytes(upper as u16, lower as u16);
    }
}

/// The stack is last-in first-out: a pop right after a push returns the
/// pushed byte and restores the stack pointer, leaving only the written
/// cell changed.  Any balanced sequence of such pairs therefore leaves the
/// stack pointer where it began.
pub proof fn lemma_push_pop(c: CpuV, b: u8)
    requires
        c.wf(),
    ensures
        peek_spec(push_spec(c, b)) == b,
        pop_spec(push_spec(c, b)) == (CpuV { mem: c.mem.update(0x100 + c.sp, b), ..c }),
        pop_spec(push_spec(c, b)).sp == c.sp,
{
}

/// The state after a sequence of push/pop pairs, one pair per item: each
/// item is pushed and at once popped again.
pub open spec fn push_pop_pairs(c: CpuV, items: Seq<u8>) -> CpuV
    decreases items.len(),
{
    if items.len() == 0 {
        c
    } else {
        push_pop_pairs(pop_spec(push_spec(c, items[0])), items.skip(1))
    }
}

/// Any sequence of push/pop pairs leaves the stack pointer, and with it
/// the whole register file, where it began.
pub proof fn lemma_push_pop_pairs(c: CpuV, items: Seq<u8>)
    requires
        c.wf(),
    ensures
        push_pop_pairs(c, items).sp == c.sp,
        push_pop_pairs(c, items).pc == c.pc,
        push_pop_pairs(c, items).a == c.a,
        push_pop_pairs(c, items).x == c.x,
        push_pop_pairs(c, items).y == c.y,
        push_pop_pairs(c, items).flags == c.flags,
        push_pop_pairs(c, items).wf(),
    decreases items.len(),
{
    if items.len() > 0 {
        let c1 = pop_spec(push_spec(c, items[0]));
        lemma_push_pop_pairs(c1, items.skip(1));
    }
}

/// Saving the program counter and pulling it back restores it byte for
/// byte, and restores the stack pointer.
pub proof fn lemma_pc_save_restore(c: CpuV)
    requires
        c.wf(),
    ensures
        pull_pc_spec(save_pc_spec(c, false)).pc == c.pc,
        pull_pc_spec(save_pc_spec(c, false)).sp == c.sp,
        pull_pc_spec(save_pc_spec(c, false)).a == c.a,
        pull_pc_spec(save_pc_spec(c, false)).x == c.x,
        pull_pc_spec(save_pc_spec(c, false)).y == c.y,
        pull_pc_spec(save_pc_spec(c, false)).flags == c.flags,
{
    let c1 = save_pc_spec(c, false);
    assert(c1.mem[0x100 + w8(c1.sp + 1) as int] == w8(c.pc as int));
    assert(c1.mem[0x100 + w8(c1.sp + 2) as int] == w8(c.pc as int / 0x100));
}

} // verus!
