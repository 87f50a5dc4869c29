//! The primary opcode table of the extended engine.

use vstd::prelude::*;

pub use crate::cpu::opcode::SpecialOpcode;

verus! {

/// An operation of the extended engine. `Special` is no operation of its own:
/// it says that the byte after it is to be looked up among the prefixed
/// operations.
#[derive(Clone, Copy, Debug, PartialEq, Eq, Structural)]
pub enum Opcode {
    // Control
    NoOp,
    Special,
    // Flow Control
    Jump,
    JumpNonZero,
    JumpZero,
    JumpNonCarry,
    JumpCarry,
    JumpRelative,
    JumpRelativeNonZero,
    JumpRelativeZero,
    JumpRelativeNonCarry,
    JumpRelativeCarry,
    Return,
    CallImmAddr,
    // 8-bit Load
    LoadAIntoC,
    LoadAIntoD,
    LoadAIntoH,
    LoadEIntoA,
    LoadImmIntoB,
    LoadImmIntoC,
    LoadImmIntoD,
    LoadImmIntoE,
    LoadImmIntoH,
    LoadImmIntoL,
    LoadImmIntoA,
    LoadImmIntoAddrHl,
    LoadAIntoAddrC,
    LoadAIntoAddrBc,
    LoadAIntoAddrDe,
    LoadAIntoAddrHl,
    LoadAddrBcIntoA,
    LoadAddrDeIntoA,
    LoadAIntoImmAddr,
    LoadAIntoAddrHlAndInc,
    LoadAddrHLIntoAAndInc,
    LoadAIntoAddrHlAndDec,
    LoadAddrHlIntoAAndDec,
    LoadAIntoImmAddrIO,
    LoadImmAddrIOIntoA,
    // 16-bit Load
    LoadImmIntoBc,
    LoadImmIntoDe,
    LoadImmIntoHl,
    LoadImmIntoSp,
    LoadSpIntoImmAddr,
    PopBc,
    PushBc,
    // 8-bit Math
    IncrementB,
    IncrementC,
    DecrementB,
    DecrementC,
    DecrementA,
    SubtractL,
    XorA,
    CompareImm,
    // 16-bit Math
    IncrementDe,
    IncrementHl,
    // 8-bit Shift/Rotate
    RotateLeftA,
}

impl Opcode {
    /// The byte that stands for the operation in the primary table.
    pub open spec fn code(self) -> u8 {
        match self {
            Opcode::NoOp => 0x00,
            Opcode::Special => 0xCB,
            Opcode::Jump => 0xC3,
            Opcode::JumpNonZero => 0xC2,
            Opcode::JumpZero => 0xCA,
            Opcode::JumpNonCarry => 0xD2,
            Opcode::JumpCarry => 0xDA,
            Opcode::JumpRelative => 0x18,
            Opcode::JumpRelativeNonZero => 0x20,
            Opcode::JumpRelativeZero => 0x28,
            Opcode::JumpRelativeNonCarry => 0x30,
            Opcode::JumpRelativeCarry => 0x38,
            Opcode::Return => 0xC9,
            Opcode::CallImmAddr => 0xCD,
            Opcode::LoadAIntoC => 0x4F,
            Opcode::LoadAIntoD => 0x57,
            Opcode::LoadAIntoH => 0x67,
            Opcode::LoadEIntoA => 0x7B,
            Opcode::LoadImmIntoB => 0x06,
            Opcode::LoadImmIntoC => 0x0E,
            Opcode::LoadImmIntoD => 0x16,
            Opcode::LoadImmIntoE => 0x1E,
            Opcode::LoadImmIntoH => 0x26,
            Opcode::LoadImmIntoL => 0x2E,
            Opcode::LoadImmIntoA => 0x3E,
            Opcode::LoadImmIntoAddrHl => 0x36,
            Opcode::LoadAIntoAddrC => 0xE2,
            Opcode::LoadAIntoAddrBc => 0x02,
            Opcode::LoadAIntoAddrDe => 0x12,
            Opcode::LoadAIntoAddrHl => 0x77,
            Opcode::LoadAddrBcIntoA => 0x0A,
            Opcode::LoadAddrDeIntoA => 0x1A,
            Opcode::LoadAIntoImmAddr => 0xEA,
            Opcode::LoadAIntoAddrHlAndInc => 0x22,
            Opcode::LoadAddrHLIntoAAndInc => 0x2A,
            Opcode::LoadAIntoAddrHlAndDec => 0x32,
            Opcode::LoadAddrHlIntoAAndDec => 0x3A,
            Opcode::LoadAIntoImmAddrIO => 0xE0,
            Opcode::LoadImmAddrIOIntoA => 0xF0,
            Opcode::LoadImmIntoBc => 0x01,
            Opcode::LoadImmIntoDe => 0x11,
            Opcode::LoadImmIntoHl => 0x21,
            Opcode::LoadImmIntoSp => 0x31,
            Opcode::LoadSpIntoImmAddr => 0x08,
            Opcode::PopBc => 0xC1,
            Opcode::PushBc => 0xC5,
            Opcode::IncrementB => 0x04,
            Opcode::IncrementC => 0x0C,
            Opcode::DecrementB => 0x05,
            Opcode::DecrementC => 0x0D,
            Opcode::DecrementA => 0x3D,
            Opcode::SubtractL => 0x95,
            Opcode::XorA => 0xAF,
            Opcode::CompareImm => 0xFE,
            Opcode::IncrementDe => 0x13,
            Opcode::IncrementHl => 0x23,
            Opcode::RotateLeftA => 0x17,
        }
    }

    /// The operation that a byte stands for in the primary table, if it stands for one.
    pub open spec fn decode(byte: u8) -> Option<Opcode> {
        if exists|opcode: Opcode| opcode.code() == byte {
            Some(choose|opcode: Opcode| opcode.code() == byte)
        } else {
            None
        }
    }

    /// No two operations share a byte.
    pub proof fn lemma_code_is_injective(a: Opcode, b: Opcode)
        requires
            a.code() == b.code(),
        ensures
            a == b,
    {
    }

    /// Decoding the byte of an operation gives that operation.
    pub proof fn lemma_decode_of_code(opcode: Opcode)
        ensures
            Self::decode(opcode.code()) == Some(opcode),
    {
        Self::lemma_code_is_injective(choose|other: Opcode| other.code() == opcode.code(), opcode);
    }

    /// The byte that stands for the operation.
    pub fn to_u8(self) -> (byte: u8)
        ensures
            byte == self.code(),
    {
        match self {
            Opcode::NoOp => 0x00,
            Opcode::Special => 0xCB,
            Opcode::Jump => 0xC3,
            Opcode::JumpNonZero => 0xC2,
            Opcode::JumpZero => 0xCA,
            Opcode::JumpNonCarry => 0xD2,
            Opcode::JumpCarry => 0xDA,
            Opcode::JumpRelative => 0x18,
            Opcode::JumpRelativeNonZero => 0x20,
            Opcode::JumpRelativeZero => 0x28,
            Opcode::JumpRelativeNonCarry => 0x30,
            Opcode::JumpRelativeCarry => 0x38,
            Opcode::Return => 0xC9,
            Opcode::CallImmAddr => 0xCD,
            Opcode::LoadAIntoC => 0x4F,
            Opcode::LoadAIntoD => 0x57,
            Opcode::LoadAIntoH => 0x67,
            Opcode::LoadEIntoA => 0x7B,
            Opcode::LoadImmIntoB => 0x06,
            Opcode::LoadImmIntoC => 0x0E,
            Opcode::LoadImmIntoD => 0x16,
            Opcode::LoadImmIntoE => 0x1E,
            Opcode::LoadImmIntoH => 0x26,
            Opcode::LoadImmIntoL => 0x2E,
            Opcode::LoadImmIntoA => 0x3E,
            Opcode::LoadImmIntoAddrHl => 0x36,
            Opcode::LoadAIntoAddrC => 0xE2,
            Opcode::LoadAIntoAddrBc => 0x02,
            Opcode::LoadAIntoAddrDe => 0x12,
            Opcode::LoadAIntoAddrHl => 0x77,
            Opcode::LoadAddrBcIntoA => 0x0A,
            Opcode::LoadAddrDeIntoA => 0x1A,
            Opcode::LoadAIntoImmAddr => 0xEA,
            Opcode::LoadAIntoAddrHlAndInc => 0x22,
            Opcode::LoadAddrHLIntoAAndInc => 0x2A,
            Opcode::LoadAIntoAddrHlAndDec => 0x32,
            Opcode::LoadAddrHlIntoAAndDec => 0x3A,
            Opcode::LoadAIntoImmAddrIO => 0xE0,
            Opcode::LoadImmAddrIOIntoA => 0xF0,
            Opcode::LoadImmIntoBc => 0x01,
            Opcode::LoadImmIntoDe => 0x11,
            Opcode::LoadImmIntoHl => 0x21,
            Opcode::LoadImmIntoSp => 0x31,
            Opcode::LoadSpIntoImmAddr => 0x08,
            Opcode::PopBc => 0xC1,
            Opcode::PushBc => 0xC5,
            Opcode::IncrementB => 0x04,
            Opcode::IncrementC => 0x0C,
            Opcode::DecrementB => 0x05,
            Opcode::DecrementC => 0x0D,
            Opcode::DecrementA => 0x3D,
            Opcode::SubtractL => 0x95,
            Opcode::XorA => 0xAF,
            Opcode::CompareImm => 0xFE,
            Opcode::IncrementDe => 0x13,
            Opcode::IncrementHl => 0x23,
            Opcode::RotateLeftA => 0x17,
        }
    }

    /// Looks a byte up in the primary table.
    pub fn from_u8(byte: u8) -> (found: Option<Opcode>)
        ensures
            found == Self::decode(byte),
            found matches Some(opcode) ==> opcode.code() == byte,
            found is None ==> forall|opcode: Opcode| opcode.code() != byte,
    {
        let found = match byte {
            0x00 => Some(Opcode::NoOp),
            0x01 => Some(Opcode::LoadImmIntoBc),
            0x02 => Some(Opcode::LoadAIntoAddrBc),
            0x04 => Some(Opcode::IncrementB),
            0x05 => Some(Opcode::DecrementB),
            0x06 => Some(Opcode::LoadImmIntoB),
            0x08 => Some(Opcode::LoadSpIntoImmAddr),
            0x0A => Some(Opcode::LoadAddrBcIntoA),
            0x0C => Some(Opcode::IncrementC),
            0x0D => Some(Opcode::DecrementC),
            0x0E => Some(Opcode::LoadImmIntoC),
            0x11 => Some(Opcode::LoadImmIntoDe),
            0x12 => Some(Opcode::LoadAIntoAddrDe),
            0x13 => Some(Opcode::IncrementDe),
            0x16 => Some(Opcode::LoadImmIntoD),
            0x17 => Some(Opcode::RotateLeftA),
            0x18 => Some(Opcode::JumpRelative),
            0x1A => Some(Opcode::LoadAddrDeIntoA),
            0x1E => Some(Opcode::LoadImmIntoE),
            0x20 => Some(Opcode::JumpRelativeNonZero),
            0x21 => Some(Opcode::LoadImmIntoHl),
            0x22 => Some(Opcode::LoadAIntoAddrHlAndInc),
            0x23 => Some(Opcode::IncrementHl),
            0x26 => Some(Opcode::LoadImmIntoH),
            0x28 => Some(Opcode::JumpRelativeZero),
            0x2A => Some(Opcode::LoadAddrHLIntoAAndInc),
            0x2E => Some(Opcode::LoadImmIntoL),
            0x30 => Some(Opcode::JumpRelativeNonCarry),
            0x31 => Some(Opcode::LoadImmIntoSp),
            0x32 => Some(Opcode::LoadAIntoAddrHlAndDec),
            0x36 => Some(Opcode::LoadImmIntoAddrHl),
            0x38 => Some(Opcode::JumpRelativeCarry),
            0x3A => Some(Opcode::LoadAddrHlIntoAAndDec),
            0x3D => Some(Opcode::DecrementA),
            0x3E => Some(Opcode::LoadImmIntoA),
            0x4F => Some(Opcode::LoadAIntoC),
            0x57 => Some(Opcode::LoadAIntoD),
            0x67 => Some(Opcode::LoadAIntoH),
            0x77 => Some(Opcode::LoadAIntoAddrHl),
            0x7B => Some(Opcode::LoadEIntoA),
            0x95 => Some(Opcode::SubtractL),
            0xAF => Some(Opcode::XorA),
            0xC1 => Some(Opcode::PopBc),
            0xC2 => Some(Opcode::JumpNonZero),
            0xC3 => Some(Opcode::Jump),
            0xC5 => Some(Opcode::PushBc),
            0xC9 => Some(Opcode::Return),
            0xCA => Some(Opcode::JumpZero),
            0xCB => Some(Opcode::Special),
            0xCD => Some(Opcode::CallImmAddr),
            0xD2 => Some(Opcode::JumpNonCarry),
            0xDA => Some(Opcode::JumpCarry),
            0xE0 => Some(Opcode::LoadAIntoImmAddrIO),
            0xE2 => Some(Opcode::LoadAIntoAddrC),
            0xEA => Some(Opcode::LoadAIntoImmAddr),
            0xF0 => Some(Opcode::LoadImmAddrIOIntoA),
            0xFE => Some(Opcode::CompareImm),
            _ => None,
        };
        proof {
            match found {
                Some(opcode) => {
                    Self::lemma_decode_of_code(opcode);
                },
                None => {
                    assert forall|opcode: Opcode| opcode.code() != byte by {}
                },
            }
        }
        found
    }
}

} // verus!
