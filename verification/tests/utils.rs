use mos6502::utils::check_bit;
use mos6502::utils::combine_bytes;
use mos6502::utils::get_top_bit;
use mos6502::utils::is_overflow;
use mos6502::utils::split_bytes;

#[test]
fn test_check_bit_false() {
    assert!(!check_bit(0xF0, 2));
}

#[test]
fn test_check_bit_true() {
    assert!(check_bit(0xF0, 6));
}

#[test]
fn test_is_overflow_false() {
    assert!(!is_overflow(224, 80, 140));
}

#[test]
fn test_is_overflow_true() {
    assert!(is_overflow(160, 80, 80));
}

#[test]
fn test_combine_bytes() {
    let lower: u16 = 0x56;
    let upper: u16 = 0x34;
    assert_eq!(combine_bytes(upper, lower), 0x3456);
}

#[test]
fn test_get_top_bit_true() {
    assert!(get_top_bit(0xF1));
}

#[test]
fn test_get_top_bit_false() {
    assert!(!get_top_bit(0x11));
}

#[test]
fn test_split_bytes() {
    assert_eq!(split_bytes(0x3456), (0x34, 0x56));
}
