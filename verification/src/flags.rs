//! The packed status register.
//!
//! Eight independent boolean flags with fixed bit positions in the packed
//! byte, from most to least significant: negative (7), overflow (6),
//! break-high (5), break-low (4), decimal (3), interrupt-disable (2),
//! zero (1), carry (0).

use vstd::prelude::*;
use crate::utils::bit_set;
use crate::utils::check_bit;

verus! {

/// The status register as individual booleans.
#[derive(Clone, Copy, Debug, PartialEq, Eq, Structural)]
pub struct Flags {
    pub carry: bool,
    pub zero: bool,
    pub inter_disable: bool,
    pub decimal: bool,
    pub break1: bool,
    pub break2: bool,
    pub overflow: bool,
    pub negative: bool,
}

/// 1 for true, 0 for false.
pub open spec fn bval(b: bool) -> int {
    if b {
        1
    } else {
        0
    }
}

/// The packed byte that a `Flags` value stands for.
pub open spec fn spec_to_byte(f: Flags) -> u8 {
    (bval(f.negative) * 0x80 + bval(f.overflow) * 0x40 + bval(f.break2) * 0x20
        + bval(f.break1) * 0x10 + bval(f.decimal) * 0x8 + bval(f.inter_disable) * 0x4
        + bval(f.zero) * 0x2 + bval(f.carry)) as u8
}

/// The `Flags` value whose booleans are the bits of `b`.
pub open spec fn spec_from_byte(b: u8) -> Flags {
    Flags {
        carry: bit_set(b, 0),
        zero: bit_set(b, 1),
        inter_disable: bit_set(b, 2),
        decimal: bit_set(b, 3),
        break1: bit_set(b, 4),
        break2: bit_set(b, 5),
        overflow: bit_set(b, 6),
        negative: bit_set(b, 7),
    }
}

/// Every flag clear.
pub open spec fn spec_clear() -> Flags {
    Flags {
        carry: false,
        zero: false,
        inter_disable: false,
        decimal: false,
        break1: false,
        break2: false,
        overflow: false,
        negative: false,
    }
}

impl Flags {
    /// All flags clear.
    pub fn new() -> (f: Flags)
        ensures
            f == spec_clear(),
    {
        Flags {
            carry: false,
            zero: false,
            inter_disable: false,
            decimal: false,
            break1: false,
            break2: false,
            overflow: false,
            negative: false,
        }
    }

    /// Packs the flags into their byte, most significant bit first.
    pub fn to_u8(&self) -> (b: u8)
        ensures
            b == spec_to_byte(*self),
    {
        let mut res: u8 = 0;
        if self.negative {
            res += 0x80;
        }
        if self.overflow {
            res += 0x40;
        }
        if self.break2 {
            res += 0x20;
        }
        if self.break1 {
            res += 0x10;
        }
        if self.decimal {
            res += 0x8;
        }
        if self.inter_disable {
            res += 0x4;
        }
        if self.zero {
            res += 0x2;
        }
        if self.carry {
            res += 0x1;
        }
        res
    }

    /// Reads a packed byte back into individual flags.
    pub fn from_byte(b: u8) -> (f: Flags)
        ensures
            f == spec_from_byte(b),
    {
        Flags {
            carry: check_bit(b, 1),
            zero: check_bit(b, 2),
            inter_disable: check_bit(b, 3),
            decimal: check_bit(b, 4),
            break1: check_bit(b, 5),
            break2: check_bit(b, 6),
            overflow: check_bit(b, 7),
            negative: check_bit(b, 8),
        }
    }

    /// Sets both break flags, as the BRK handler does.
    pub fn set_breaks(&mut self)
        ensures
            *final(self) == (Flags { break1: true, break2: true, ..*old(self) }),
    {
        self.break1 = true;
        self.break2 = true;
    }

    /// Clears both break flags.
    pub fn reset_breaks(&mut self)
        ensures
            *final(self) == (Flags { break1: false, break2: false, ..*old(self) }),
    {
        self.break1 = false;
        self.break2 = false;
    }

    /// Sets carry, zero and negative from an unsigned comparison of a
    /// register against an operand; the other flags are untouched.
    pub fn set_for_cmp(&mut self, reg: u8, val: u8)
        ensures
            *final(self) == (Flags {
                carry: reg >= val,
                zero: reg == val,
                negative: reg < val,
                ..*old(self)
            }),
    {
        self.carry = reg >= val;
        self.zero = reg == val;
        self.negative = reg < val;
    }
}

impl From<u8> for Flags {
    fn from(val: u8) -> (f: Flags) {
        Flags::from_byte(val)
    }
}

impl vstd::std_specs::convert::FromSpecImpl<u8> for Flags {
    open spec fn obeys_from_spec() -> bool {
        true
    }

    open spec fn from_spec(v: u8) -> Flags {
        spec_from_byte(v)
    }
}

/// Packing after unpacking gives the byte back: the flag byte is a faithful
/// encoding of every byte value.
pub proof fn lemma_unpack_pack(b: u8)
    ensures
        spec_to_byte(spec_from_byte(b)) == b,
{
    assert((if (b >> 7) & 1 == 1 { 0x80int } else { 0 }) + (if (b >> 6) & 1 == 1 { 0x40int } else { 0 })
        + (if (b >> 5) & 1 == 1 { 0x20int } else { 0 }) + (if (b >> 4) & 1 == 1 { 0x10int } else { 0 })
        + (if (b >> 3) & 1 == 1 { 0x8int } else { 0 }) + (if (b >> 2) & 1 == 1 { 0x4int } else { 0 })
        + (if (b >> 1) & 1 == 1 { 0x2int } else { 0 }) + (if (b >> 0) & 1 == 1 { 0x1int } else { 0 })
        == b) by (bit_vector);
}

/// Unpacking after packing gives the flags back: distinct flags land in
/// distinct bits of the packed byte.
pub proof fn lemma_pack_unpack(f: Flags)
    ensures
        spec_from_byte(spec_to_byte(f)) == f,
{
    let n: u8 = if f.negative { 1 } else { 0 };
    let v: u8 = if f.overflow { 1 } else { 0 };
    let b2: u8 = if f.break2 { 1 } else { 0 };
    let b1: u8 = if f.break1 { 1 } else { 0 };
    let d: u8 = if f.decimal { 1 } else { 0 };
    let i: u8 = if f.inter_disable { 1 } else { 0 };
    let z: u8 = if f.zero { 1 } else { 0 };
    let c: u8 = if f.carry { 1 } else { 0 };
    let packed = (n * 0x80 + v * 0x40 + b2 * 0x20 + b1 * 0x10 + d * 0x8 + i * 0x4 + z * 0x2
        + c) as u8;
    assert(((packed >> 0) & 1 == 1) == (c == 1) && ((packed >> 1) & 1 == 1) == (z == 1)
        && ((packed >> 2) & 1 == 1) == (i == 1) && ((packed >> 3) & 1 == 1) == (d == 1)
        && ((packed >> 4) & 1 == 1) == (b1 == 1) && ((packed >> 5) & 1 == 1) == (b2 == 1)
        && ((packed >> 6) & 1 == 1) == (v == 1) && ((packed >> 7) & 1 == 1) == (n == 1))
        by (bit_vector)
        requires
            n <= 1 && v <= 1 && b2 <= 1 && b1 <= 1 && d <= 1 && i <= 1 && z <= 1 && c <= 1,
            packed == (n * 0x80 + v * 0x40 + b2 * 0x20 + b1 * 0x10 + d * 0x8 + i * 0x4 + z * 0x2
                + c) as u8,
    ;
    assert(spec_to_byte(f) == packed);
}

} // verus!
