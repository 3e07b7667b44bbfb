use mos6502::flags::Flags;
use mos6502::instruction::Instruction;
use mos6502::instruction::Ops;

#[test]
fn test_from_u8() {
    let flags: Flags = Flags::from(0x81);
    println!("{:?}", flags);
    assert!(flags.negative);
    assert!(flags.carry);
}

#[test]
fn flags_test_to_u81() {
    let flags = Flags {
        carry: false,
        zero: false,
        inter_disable: false,
        decimal: false,
        break1: true,
        break2: true,
        overflow: true,
        negative: true,
    };
    assert_eq!(flags.to_u8(), 0xF0);
}

#[test]
fn flags_test_to_u82() {
    let flags = Flags {
        carry: true,
        zero: false,
        inter_disable: false,
        decimal: false,
        break1: true,
        break2: true,
        overflow: true,
        negative: true,
    };
    assert_eq!(flags.to_u8(), 0xF1);
}

#[test]
fn registers_test_to_u81() {
    let flags = Flags {
        carry: false,
        zero: false,
        inter_disable: false,
        decimal: false,
        break1: true,
        break2: true,
        overflow: true,
        negative: true,
    };
    assert_eq!(flags.to_u8(), 0xF0);
}

#[test]
fn registers_test_to_u82() {
    let flags = Flags {
        carry: true,
        zero: false,
        inter_disable: false,
        decimal: false,
        break1: true,
        break2: true,
        overflow: true,
        negative: true,
    };
    assert_eq!(flags.to_u8(), 0xF1);
}

#[test]
fn test_from_int() {
    let op: Ops = Ops::from_byte(0x69).unwrap();
    assert!(op == Ops::AdcI);
}

#[test]
fn test_decode_illegal() {
    assert!(Ops::from_byte(0x02).is_none());
    assert!(Ops::from_byte(0x03).is_none());
    assert!(Ops::from_byte(0xFF).is_none());
}

#[test]
fn test_decode_representative() {
    assert!(Ops::from_byte(0x00) == Some(Ops::Brk));
    assert!(Ops::from_byte(0x4C) == Some(Ops::JmpAbs));
    assert!(Ops::from_byte(0x20) == Some(Ops::Jsr));
    assert!(Ops::from_byte(0x40) == Some(Ops::Rti));
    assert!(Ops::from_byte(0x60) == Some(Ops::Rts));
    assert!(Ops::from_byte(0xEA) == Some(Ops::Nop));
    assert!(Ops::from_byte(0xA9) == Some(Ops::LdaI));
    assert!(Ops::from_byte(0x85) == Some(Ops::StaZp));
    assert!(Ops::from_byte(0xAA) == Some(Ops::Tax));
    assert!(Ops::from_byte(0x9A) == Some(Ops::Txs));
}

#[test]
fn test_instruction_decode() {
    let ins = Instruction { op: 0x69 };
    assert!(ins.decode() == Some(Ops::AdcI));
    let bad = Instruction { op: 0x02 };
    assert!(bad.decode().is_none());
}

#[test]
fn test_pack_unpack_all_bytes() {
    for b in 0..=255u8 {
        assert_eq!(Flags::from_byte(b).to_u8(), b);
    }
}

#[test]
fn test_unpack_pack_new() {
    let f = Flags::new();
    assert_eq!(f.to_u8(), 0);
    let g = Flags::from_byte(f.to_u8());
    assert!(g == f);
}

#[test]
fn test_set_reset_breaks() {
    let mut f = Flags::new();
    f.set_breaks();
    assert!(f.break1 && f.break2);
    assert_eq!(f.to_u8(), 0x30);
    f.reset_breaks();
    assert!(!f.break1 && !f.break2);
    assert_eq!(f.to_u8(), 0x00);
}

#[test]
fn test_set_for_cmp_keeps_others() {
    let mut f = Flags::from_byte(0x0C);
    f.set_for_cmp(9, 9);
    assert!(f.carry && f.zero && !f.negative);
    assert!(f.decimal && f.inter_disable);
}
