//! Opcodes and addressing modes.
//!
//! `Ops` enumerates the legal instructions, one variant per opcode byte.
//! `spec_decode` is the opcode table: the total map from a raw byte to the
//! instruction it encodes, or `None` for an illegal byte.

use vstd::prelude::*;

verus! {

/// The addressing modes of the instruction set.
#[derive(Clone, Copy, Debug, PartialEq, Eq, Structural)]
pub enum AddrModes {
    Immediate,
    ZeroPage,
    ZeroPageX,
    ZeroPageY,
    Absolute,
    AbsoluteX,
    AbsoluteY,
    IndirectX,
    IndirectY,
    Accumulator,
    Indirect,
}

/// The registers a transfer instruction can name, including the stack
/// pointer.
#[derive(Clone, Copy, Debug, PartialEq, Eq, Structural)]
pub enum TransferOption {
    X,
    Y,
    A,
    S,
}

/// A raw instruction byte as fetched from the address space.
#[derive(Clone, Copy, Debug, PartialEq, Eq, Structural)]
pub struct Instruction {
    pub op: u8,
}

impl Instruction {
    /// Decodes the held byte against the opcode table.
    pub fn decode(&self) -> (r: Option<Ops>)
        ensures
            r == spec_decode(self.op),
    {
        Ops::from_byte(self.op)
    }
}

/// The legal instructions, one variant per opcode byte.
#[derive(Clone, Copy, Debug, PartialEq, Eq, Structural)]
pub enum Ops {
    AdcI,
    AdcZp,
    AdcZpX,
    AdcAbs,
    AdcAbsX,
    AdcAbsY,
    AdcIndX,
    AdcIndY,
    AndI,
    AndZp,
    AndZpX,
    AndAbs,
    AndAbsX,
    AndAbsY,
    AndIndX,
    AndIndY,
    AslAccum,
    AslZp,
    AslZpX,
    AslAbs,
    AslAbsX,
    Bcc,
    Bcs,
    Beq,
    Bne,
    Bmi,
    Bpl,
    Bvc,
    Bvs,
    BitZp,
    BitAbs,
    Brk,
    Clc,
    Cld,
    Cli,
    Clv,
    CmpI,
    CmpZp,
    CmpZpX,
    CmpAbs,
    CmpAbsX,
    CmpAbsY,
    CmpIndX,
    CmpIndY,
    CmpXI,
    CmpXZp,
    CmpXAbs,
    CmpYI,
    CmpYZp,
    CmpYAbs,
    DecZp,
    DecZpX,
    DecAbs,
    DecAbsX,
    DecX,
    DecY,
    IncZp,
    IncZpX,
    IncAbs,
    IncAbsX,
    IncX,
    IncY,
    EORI,
    EORZp,
    EORZpX,
    EORAbs,
    EORAbsX,
    EORAbsY,
    EORIndX,
    EORIndY,
    JmpAbs,
    JmpInd,
    Jsr,
    LdaI,
    LdaZp,
    LdaZpX,
    LdaAbs,
    LdaAbsX,
    LdaAbsY,
    LdaIndX,
    LdaIndY,
    LdxI,
    LdxZp,
    LdxZpY,
    LdxAbs,
    LdxAbsY,
    LdyI,
    LdyZp,
    LdyZpX,
    LdyAbs,
    LdyAbsX,
    LsrAccum,
    LsrZp,
    LsrZpX,
    LsrAbs,
    LsrAbsX,
    Nop,
    ORI,
    ORZp,
    ORZpX,
    ORAbs,
    ORAbsX,
    ORAbsY,
    ORIndX,
    ORIndY,
    Pha,
    Php,
    Pla,
    Plp,
    RolAccum,
    RolZp,
    RolZpX,
    RolAbs,
    RolAbsX,
    RorAccum,
    RorZp,
    RorZpX,
    RorAbs,
    RorAbsX,
    Rti,
    Rts,
    SbcI,
    SbcZp,
    SbcZpX,
    SbcAbs,
    SbcAbsX,
    SbcAbsY,
    SbcIndX,
    SbcIndY,
    Sec,
    Sed,
    Sei,
    StaZp,
    StaZpX,
    StaAbs,
    StaAbsX,
    StaAbsY,
    StaIndX,
    StaIndY,
    StxZp,
    StxZpY,
    StxAbs,
    StyZp,
    StyZpX,
    StyAbs,
    Tax,
    Tay,
    Tsx,
    Txa,
    Txs,
    Tya,
}

/// The opcode table: the instruction a byte encodes, or `None` for an
/// illegal byte.
pub open spec fn spec_decode(b: u8) -> Option<Ops> {
    match b {
        0x69 => Some(Ops::AdcI),
        0x65 => Some(Ops::AdcZp),
        0x75 => Some(Ops::AdcZpX),
        0x6D => Some(Ops::AdcAbs),
        0x7D => Some(Ops::AdcAbsX),
        0x79 => Some(Ops::AdcAbsY),
        0x61 => Some(Ops::AdcIndX),
        0x71 => Some(Ops::AdcIndY),
        0x29 => Some(Ops::AndI),
        0x25 => Some(Ops::AndZp),
        0x35 => Some(Ops::AndZpX),
        0x2D => Some(Ops::AndAbs),
        0x3D => Some(Ops::AndAbsX),
        0x39 => Some(Ops::AndAbsY),
        0x21 => Some(Ops::AndIndX),
        0x31 => Some(Ops::AndIndY),
        0x0A => Some(Ops::AslAccum),
        0x06 => Some(Ops::AslZp),
        0x16 => Some(Ops::AslZpX),
        0x0E => Some(Ops::AslAbs),
        0x1E => Some(Ops::AslAbsX),
        0x90 => Some(Ops::Bcc),
        0xB0 => Some(Ops::Bcs),
        0xF0 => Some(Ops::Beq),
        0xD0 => Some(Ops::Bne),
        0x30 => Some(Ops::Bmi),
        0x10 => Some(Ops::Bpl),
        0x50 => Some(Ops::Bvc),
        0x70 => Some(Ops::Bvs),
        0x24 => Some(Ops::BitZp),
        0x2C => Some(Ops::BitAbs),
        0x00 => Some(Ops::Brk),
        0x18 => Some(Ops::Clc),
        0xD8 => Some(Ops::Cld),
        0x58 => Some(Ops::Cli),
        0xB8 => Some(Ops::Clv),
        0xC9 => Some(Ops::CmpI),
        0xC5 => Some(Ops::CmpZp),
        0xD5 => Some(Ops::CmpZpX),
        0xCD => Some(Ops::CmpAbs),
        0xDD => Some(Ops::CmpAbsX),
        0xD9 => Some(Ops::CmpAbsY),
        0xC1 => Some(Ops::CmpIndX),
        0xD1 => Some(Ops::CmpIndY),
        0xE0 => Some(Ops::CmpXI),
        0xE4 => Some(Ops::CmpXZp),
        0xEC => Some(Ops::CmpXAbs),
        0xC0 => Some(Ops::CmpYI),
        0xC4 => Some(Ops::CmpYZp),
        0xCC => Some(Ops::CmpYAbs),
        0xC6 => Some(Ops::DecZp),
        0xD6 => Some(Ops::DecZpX),
        0xCE => Some(Ops::DecAbs),
        0xDE => Some(Ops::DecAbsX),
        0xCA => Some(Ops::DecX),
        0x88 => Some(Ops::DecY),
        0xE6 => Some(Ops::IncZp),
        0xF6 => Some(Ops::IncZpX),
        0xEE => Some(Ops::IncAbs),
        0xFE => Some(Ops::IncAbsX),
        0xE8 => Some(Ops::IncX),
        0xC8 => Some(Ops::IncY),
        0x49 => Some(Ops::EORI),
        0x45 => Some(Ops::EORZp),
        0x55 => Some(Ops::EORZpX),
        0x4D => Some(Ops::EORAbs),
        0x5D => Some(Ops::EORAbsX),
        0x59 => Some(Ops::EORAbsY),
        0x41 => Some(Ops::EORIndX),
        0x51 => Some(Ops::EORIndY),
        0x4C => Some(Ops::JmpAbs),
        0x6C => Some(Ops::JmpInd),
        0x20 => Some(Ops::Jsr),
        0xA9 => Some(Ops::LdaI),
        0xA5 => Some(Ops::LdaZp),
        0xB5 => Some(Ops::LdaZpX),
        0xAD => Some(Ops::LdaAbs),
        0xBD => Some(Ops::LdaAbsX),
        0xB9 => Some(Ops::LdaAbsY),
        0xA1 => Some(Ops::LdaIndX),
        0xB1 => Some(Ops::LdaIndY),
        0xA2 => Some(Ops::LdxI),
        0xA6 => Some(Ops::LdxZp),
        0xB6 => Some(Ops::LdxZpY),
        0xAE => Some(Ops::LdxAbs),
        0xBE => Some(Ops::LdxAbsY),
        0xA0 => Some(Ops::LdyI),
        0xA4 => Some(Ops::LdyZp),
        0xB4 => Some(Ops::LdyZpX),
        0xAC => Some(Ops::LdyAbs),
        0xBC => Some(Ops::LdyAbsX),
        0x4A => Some(Ops::LsrAccum),
        0x46 => Some(Ops::LsrZp),
        0x56 => Some(Ops::LsrZpX),
        0x4E => Some(Ops::LsrAbs),
        0x5E => Some(Ops::LsrAbsX),
        0xEA => Some(Ops::Nop),
        0x09 => Some(Ops::ORI),
        0x05 => Some(Ops::ORZp),
        0x15 => Some(Ops::ORZpX),
        0x0D => Some(Ops::ORAbs),
        0x1D => Some(Ops::ORAbsX),
        0x19 => Some(Ops::ORAbsY),
        0x01 => Some(Ops::ORIndX),
        0x11 => Some(Ops::ORIndY),
        0x48 => Some(Ops::Pha),
        0x08 => Some(Ops::Php),
        0x68 => Some(Ops::Pla),
        0x28 => Some(Ops::Plp),
        0x2A => Some(Ops::RolAccum),
        0x26 => Some(Ops::RolZp),
        0x36 => Some(Ops::RolZpX),
        0x2E => Some(Ops::RolAbs),
        0x3E => Some(Ops::RolAbsX),
        0x6A => Some(Ops::RorAccum),
        0x66 => Some(Ops::RorZp),
        0x76 => Some(Ops::RorZpX),
        0x6E => Some(Ops::RorAbs),
        0x7E => Some(Ops::RorAbsX),
        0x40 => Some(Ops::Rti),
        0x60 => Some(Ops::Rts),
        0xE9 => Some(Ops::SbcI),
        0xE5 => Some(Ops::SbcZp),
        0xF5 => Some(Ops::SbcZpX),
        0xED => Some(Ops::SbcAbs),
        0xFD => Some(Ops::SbcAbsX),
        0xF9 => Some(Ops::SbcAbsY),
        0xE1 => Some(Ops::SbcIndX),
        0xF1 => Some(Ops::SbcIndY),
        0x38 => Some(Ops::Sec),
        0xF8 => Some(Ops::Sed),
        0x78 => Some(Ops::Sei),
        0x85 => Some(Ops::StaZp),
        0x95 => Some(Ops::StaZpX),
        0x8D => Some(Ops::StaAbs),
        0x9D => Some(Ops::StaAbsX),
        0x99 => Some(Ops::StaAbsY),
        0x81 => Some(Ops::StaIndX),
        0x91 => Some(Ops::StaIndY),
        0x86 => Some(Ops::StxZp),
        0x96 => Some(Ops::StxZpY),
        0x8E => Some(Ops::StxAbs),
        0x84 => Some(Ops::StyZp),
        0x94 => Some(Ops::StyZpX),
        0x8C => Some(Ops::StyAbs),
        0xAA => Some(Ops::Tax),
        0xA8 => Some(Ops::Tay),
        0xBA => Some(Ops::Tsx),
        0x8A => Some(Ops::Txa),
        0x9A => Some(Ops::Txs),
        0x98 => Some(Ops::Tya),
        _ => None,
    }
}

impl Ops {
    /// Decodes a raw opcode byte against the opcode table.
    #[verifier::rlimit(40)]
    pub fn from_byte(b: u8) -> (r: Option<Ops>)
        ensures
            r == spec_decode(b),
    {
        match b {
            0x69 => Some(Ops::AdcI),
            0x65 => Some(Ops::AdcZp),
            0x75 => Some(Ops::AdcZpX),
            0x6D => Some(Ops::AdcAbs),
            0x7D => Some(Ops::AdcAbsX),
            0x79 => Some(Ops::AdcAbsY),
            0x61 => Some(Ops::AdcIndX),
            0x71 => Some(Ops::AdcIndY),
            0x29 => Some(Ops::AndI),
            0x25 => Some(Ops::AndZp),
            0x35 => Some(Ops::AndZpX),
            0x2D => Some(Ops::AndAbs),
            0x3D => Some(Ops::AndAbsX),
            0x39 => Some(Ops::AndAbsY),
            0x21 => Some(Ops::AndIndX),
            0x31 => Some(Ops::AndIndY),
            0x0A => Some(Ops::AslAccum),
            0x06 => Some(Ops::AslZp),
            0x16 => Some(Ops::AslZpX),
            0x0E => Some(Ops::AslAbs),
            0x1E => Some(Ops::AslAbsX),
            0x90 => Some(Ops::Bcc),
            0xB0 => Some(Ops::Bcs),
            0xF0 => Some(Ops::Beq),
            0xD0 => Some(Ops::Bne),
            0x30 => Some(Ops::Bmi),
            0x10 => Some(Ops::Bpl),
            0x50 => Some(Ops::Bvc),
            0x70 => Some(Ops::Bvs),
            0x24 => Some(Ops::BitZp),
            0x2C => Some(Ops::BitAbs),
            0x00 => Some(Ops::Brk),
            0x18 => Some(Ops::Clc),
            0xD8 => Some(Ops::Cld),
            0x58 => Some(Ops::Cli),
            0xB8 => Some(Ops::Clv),
            0xC9 => Some(Ops::CmpI),
            0xC5 => Some(Ops::CmpZp),
            0xD5 => Some(Ops::CmpZpX),
            0xCD => Some(Ops::CmpAbs),
            0xDD => Some(Ops::CmpAbsX),
            0xD9 => Some(Ops::CmpAbsY),
            0xC1 => Some(Ops::CmpIndX),
            0xD1 => Some(Ops::CmpIndY),
            0xE0 => Some(Ops::CmpXI),
            0xE4 => Some(Ops::CmpXZp),
            0xEC => Some(Ops::CmpXAbs),
            0xC0 => Some(Ops::CmpYI),
            0xC4 => Some(Ops::CmpYZp),
            0xCC => Some(Ops::CmpYAbs),
            0xC6 => Some(Ops::DecZp),
            0xD6 => Some(Ops::DecZpX),
            0xCE => Some(Ops::DecAbs),
            0xDE => Some(Ops::DecAbsX),
            0xCA => Some(Ops::DecX),
            0x88 => Some(Ops::DecY),
            0xE6 => Some(Ops::IncZp),
            0xF6 => Some(Ops::IncZpX),
            0xEE => Some(Ops::IncAbs),
            0xFE => Some(Ops::IncAbsX),
            0xE8 => Some(Ops::IncX),
            0xC8 => Some(Ops::IncY),
            0x49 => Some(Ops::EORI),
            0x45 => Some(Ops::EORZp),
            0x55 => Some(Ops::EORZpX),
            0x4D => Some(Ops::EORAbs),
            0x5D => Some(Ops::EORAbsX),
            0x59 => Some(Ops::EORAbsY),
            0x41 => Some(Ops::EORIndX),
            0x51 => Some(Ops::EORIndY),
            0x4C => Some(Ops::JmpAbs),
            0x6C => Some(Ops::JmpInd),
            0x20 => Some(Ops::Jsr),
            0xA9 => Some(Ops::LdaI),
            0xA5 => Some(Ops::LdaZp),
            0xB5 => Some(Ops::LdaZpX),
            0xAD => Some(Ops::LdaAbs),
            0xBD => Some(Ops::LdaAbsX),
            0xB9 => Some(Ops::LdaAbsY),
            0xA1 => Some(Ops::LdaIndX),
            0xB1 => Some(Ops::LdaIndY),
            0xA2 => Some(Ops::LdxI),
            0xA6 => Some(Ops::LdxZp),
            0xB6 => Some(Ops::LdxZpY),
            0xAE => Some(Ops::LdxAbs),
            0xBE => Some(Ops::LdxAbsY),
            0xA0 => Some(Ops::LdyI),
            0xA4 => Some(Ops::LdyZp),
            0xB4 => Some(Ops::LdyZpX),
            0xAC => Some(Ops::LdyAbs),
            0xBC => Some(Ops::LdyAbsX),
            0x4A => Some(Ops::LsrAccum),
            0x46 => Some(Ops::LsrZp),
            0x56 => Some(Ops::LsrZpX),
            0x4E => Some(Ops::LsrAbs),
            0x5E => Some(Ops::LsrAbsX),
            0xEA => Some(Ops::Nop),
            0x09 => Some(Ops::ORI),
            0x05 => Some(Ops::ORZp),
            0x15 => Some(Ops::ORZpX),
            0x0D => Some(Ops::ORAbs),
            0x1D => Some(Ops::ORAbsX),
            0x19 => Some(Ops::ORAbsY),
            0x01 => Some(Ops::ORIndX),
            0x11 => Some(Ops::ORIndY),
            0x48 => Some(Ops::Pha),
            0x08 => Some(Ops::Php),
            0x68 => Some(Ops::Pla),
            0x28 => Some(Ops::Plp),
            0x2A => Some(Ops::RolAccum),
            0x26 => Some(Ops::RolZp),
            0x36 => Some(Ops::RolZpX),
            0x2E => Some(Ops::RolAbs),
            0x3E => Some(Ops::RolAbsX),
            0x6A => Some(Ops::RorAccum),
            0x66 => Some(Ops::RorZp),
            0x76 => Some(Ops::RorZpX),
            0x6E => Some(Ops::RorAbs),
            0x7E => Some(Ops::RorAbsX),
            0x40 => Some(Ops::Rti),
            0x60 => Some(Ops::Rts),
            0xE9 => Some(Ops::SbcI),
            0xE5 => Some(Ops::SbcZp),
            0xF5 => Some(Ops::SbcZpX),
            0xED => Some(Ops::SbcAbs),
            0xFD => Some(Ops::SbcAbsX),
            0xF9 => Some(Ops::SbcAbsY),
            0xE1 => Some(Ops::SbcIndX),
            0xF1 => Some(Ops::SbcIndY),
            0x38 => Some(Ops::Sec),
            0xF8 => Some(Ops::Sed),
            0x78 => Some(Ops::Sei),
            0x85 => Some(Ops::StaZp),
            0x95 => Some(Ops::StaZpX),
            0x8D => Some(Ops::StaAbs),
            0x9D => Some(Ops::StaAbsX),
            0x99 => Some(Ops::StaAbsY),
            0x81 => Some(Ops::StaIndX),
            0x91 => Some(Ops::StaIndY),
            0x86 => Some(Ops::StxZp),
            0x96 => Some(Ops::StxZpY),
            0x8E => Some(Ops::StxAbs),
            0x84 => Some(Ops::StyZp),
            0x94 => Some(Ops::StyZpX),
            0x8C => Some(Ops::StyAbs),
            0xAA => Some(Ops::Tax),
            0xA8 => Some(Ops::Tay),
            0xBA => Some(Ops::Tsx),
            0x8A => Some(Ops::Txa),
            0x9A => Some(Ops::Txs),
            0x98 => Some(Ops::Tya),
            _ => None,
        }
    }
}

} // verus!
