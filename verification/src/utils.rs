//! Small helpers on bytes and 16-bit words.

use vstd::prelude::*;

verus! {

/// True iff bit `i` (counting from the least significant bit, 0-based) of
/// `val` is set.
pub open spec fn bit_set(val: u8, i: u8) -> bool {
    (val >> i) & 1 == 1
}

/// The overflow condition of signed 8-bit addition: the result byte `res`
/// disagrees in sign with both operands `m` and `n`.
pub open spec fn spec_overflow(res: u8, m: u8, n: u8) -> bool {
    (m ^ res) & (n ^ res) & 0x80 != 0
}

/// Joins a high and a low byte into a 16-bit word.
pub fn combine_bytes(upper: u16, lower: u16) -> (r: u16)
    requires
        upper <= 0xFF,
        lower <= 0xFF,
    ensures
        r == upper * 0x100 + lower,
{
    proof {
        assert((upper << 8) | lower == upper * 0x100 + lower) by (bit_vector)
            requires
                upper <= 0xFF,
                lower <= 0xFF,
        ;
    }
    (upper << 8) | lower
}

/// Splits a 16-bit word into its high and low bytes.
pub fn split_bytes(val: u16) -> (r: (u8, u8))
    ensures
        r.0 == val / 0x100,
        r.1 == val % 0x100,
{
    proof {
        assert((val >> 8) as u8 == val / 0x100 && (val & 0xFF) as u8 == val % 0x100)
            by (bit_vector);
    }
    ((val >> 8) as u8, (val & 0xFF) as u8)
}

/// True iff the most significant bit of `val` is set, i.e. iff `val` is
/// negative when read as a signed byte.
pub fn get_top_bit(val: u8) -> (r: bool)
    ensures
        r == (val >= 0x80),
{
    proof {
        assert((val >> 7 == 1) == (val >= 0x80)) by (bit_vector);
    }
    (val >> 7) == 1
}

/// True iff bit number `bit` of `val` is set, counting the least significant
/// bit as number 1.
pub fn check_bit(val: u8, bit: u8) -> (r: bool)
    requires
        1 <= bit <= 8,
    ensures
        r == bit_set(val, (bit - 1) as u8),
{
    let sh: u8 = bit - 1;
    (val >> sh) & 1 == 1
}

/// The signed-overflow test for the V flag, over the result byte and the two
/// addends.
pub fn is_overflow(res: u8, m: u8, n: u8) -> (r: bool)
    ensures
        r == spec_overflow(res, m, n),
{
    (m ^ res) & (n ^ res) & 0x80 != 0
}

} // verus!
