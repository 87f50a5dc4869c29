//! The opcode tables of the baseline engine.

use vstd::prelude::*;

verus! {

/// An operation of the baseline engine. `Special` is no operation of its own:
/// it says that the byte after it is to be looked up among the prefixed
/// operations.
#[derive(Clone, Copy, Debug, PartialEq, Eq, Structural)]
pub enum Opcode {
    // Jumps/Calls/Returns
    JumpRelative,
    JumpRelativeNZ,
    JumpRelativeZ,
    CallAddrImm,
    Return,
    // 8-bit load
    LoadAIntoC,
    LoadAIntoD,
    LoadAIntoH,
    LoadEIntoA,
    LoadAddrDeIntoA,
    LoadImmIntoA,
    LoadImmIntoB,
    LoadImmIntoC,
    LoadImmIntoE,
    LoadImmIntoL,
    LoadAintoAddrHlAndInc,
    LoadAIntoAddrHlAndDec,
    LoadAIntoAddrHl,
    LoadAIntoAddrC,
    LoadAIntoAddrImm,
    LoadAIntoAddrImmIO,
    LoadAddrImmIOIntoA,
    // 16-bit load
    LoadImmIntoDe,
    LoadImmIntoHl,
    LoadImmIntoSp,
    PushBc,
    PopBc,
    // 8-bit math
    DecrementA,
    DecrementB,
    DecrementC,
    IncrementB,
    IncrementC,
    SubtractL,
    XorA,
    CompareImm,
    // 16-bit math
    IncrementDe,
    IncrementHl,
    Special,
    RotateLeftA,
}

impl Opcode {
    /// The byte that stands for the operation in the primary table.
    pub open spec fn code(self) -> u8 {
        match self {
            Opcode::JumpRelative => 0x18,
            Opcode::JumpRelativeNZ => 0x20,
            Opcode::JumpRelativeZ => 0x28,
            Opcode::CallAddrImm => 0xCD,
            Opcode::Return => 0xC9,
            Opcode::LoadAIntoC => 0x4F,
            Opcode::LoadAIntoD => 0x57,
            Opcode::LoadAIntoH => 0x67,
            Opcode::LoadEIntoA => 0x7B,
            Opcode::LoadAddrDeIntoA => 0x1A,
            Opcode::LoadImmIntoA => 0x3E,
            Opcode::LoadImmIntoB => 0x06,
            Opcode::LoadImmIntoC => 0x0E,
            Opcode::LoadImmIntoE => 0x1E,
            Opcode::LoadImmIntoL => 0x2E,
            Opcode::LoadAintoAddrHlAndInc => 0x22,
            Opcode::LoadAIntoAddrHlAndDec => 0x32,
            Opcode::LoadAIntoAddrHl => 0x77,
            Opcode::LoadAIntoAddrC => 0xE2,
            Opcode::LoadAIntoAddrImm => 0xEA,
            Opcode::LoadAIntoAddrImmIO => 0xE0,
            Opcode::LoadAddrImmIOIntoA => 0xF0,
            Opcode::LoadImmIntoDe => 0x11,
            Opcode::LoadImmIntoHl => 0x21,
            Opcode::LoadImmIntoSp => 0x31,
            Opcode::PushBc => 0xC5,
            Opcode::PopBc => 0xC1,
            Opcode::DecrementA => 0x3D,
            Opcode::DecrementB => 0x05,
            Opcode::DecrementC => 0x0D,
            Opcode::IncrementB => 0x04,
            Opcode::IncrementC => 0x0C,
            Opcode::SubtractL => 0x95,
            Opcode::XorA => 0xAF,
            Opcode::CompareImm => 0xFE,
            Opcode::IncrementDe => 0x13,
            Opcode::IncrementHl => 0x23,
            Opcode::Special => 0xCB,
            Opcode::RotateLeftA => 0x17,
        }
    }

    /// The operation that a byte stands for in the primary table, if it stands for one.
    pub open spec fn decode(byte: u8) -> Option<Opcode> {
        if exists|opcode: Opcode| opcode.code() == byte {
            Some(choose|opcode: Opcode| opcode.code() == byte)
        } else {
            None
        }
    }

    /// No two operations share a byte.
    pub proof fn lemma_code_is_injective(a: Opcode, b: Opcode)
        requires
            a.code() == b.code(),
        ensures
            a == b,
    {
    }

    /// Decoding the byte of an operation gives that operation.
    pub proof fn lemma_decode_of_code(opcode: Opcode)
        ensures
            Self::decode(opcode.code()) == Some(opcode),
    {
        Self::lemma_code_is_injective(choose|other: Opcode| other.code() == opcode.code(), opcode);
    }

    /// The byte that stands for the operation.
    pub fn to_u8(self) -> (byte: u8)
        ensures
            byte == self.code(),
    {
        match self {
            Opcode::JumpRelative => 0x18,
            Opcode::JumpRelativeNZ => 0x20,
            Opcode::JumpRelativeZ => 0x28,
            Opcode::CallAddrImm => 0xCD,
            Opcode::Return => 0xC9,
            Opcode::LoadAIntoC => 0x4F,
            Opcode::LoadAIntoD => 0x57,
            Opcode::LoadAIntoH => 0x67,
            Opcode::LoadEIntoA => 0x7B,
            Opcode::LoadAddrDeIntoA => 0x1A,
            Opcode::LoadImmIntoA => 0x3E,
            Opcode::LoadImmIntoB => 0x06,
            Opcode::LoadImmIntoC => 0x0E,
            Opcode::LoadImmIntoE => 0x1E,
            Opcode::LoadImmIntoL => 0x2E,
            Opcode::LoadAintoAddrHlAndInc => 0x22,
            Opcode::LoadAIntoAddrHlAndDec => 0x32,
            Opcode::LoadAIntoAddrHl => 0x77,
            Opcode::LoadAIntoAddrC => 0xE2,
            Opcode::LoadAIntoAddrImm => 0xEA,
            Opcode::LoadAIntoAddrImmIO => 0xE0,
            Opcode::LoadAddrImmIOIntoA => 0xF0,
            Opcode::LoadImmIntoDe => 0x11,
            Opcode::LoadImmIntoHl => 0x21,
            Opcode::LoadImmIntoSp => 0x31,
            Opcode::PushBc => 0xC5,
            Opcode::PopBc => 0xC1,
            Opcode::DecrementA => 0x3D,
            Opcode::DecrementB => 0x05,
            Opcode::DecrementC => 0x0D,
            Opcode::IncrementB => 0x04,
            Opcode::IncrementC => 0x0C,
            Opcode::SubtractL => 0x95,
            Opcode::XorA => 0xAF,
            Opcode::CompareImm => 0xFE,
            Opcode::IncrementDe => 0x13,
            Opcode::IncrementHl => 0x23,
            Opcode::Special => 0xCB,
            Opcode::RotateLeftA => 0x17,
        }
    }

    /// Looks a byte up in the primary table.
    pub fn from_u8(byte: u8) -> (found: Option<Opcode>)
        ensures
            found == Self::decode(byte),
            found matches Some(opcode) ==> opcode.code() == byte,
            found is None ==> forall|opcode: Opcode| opcode.code() != byte,
    {
        let found = match byte {
            0x04 => Some(Opcode::IncrementB),
            0x05 => Some(Opcode::DecrementB),
            0x06 => Some(Opcode::LoadImmIntoB),
            0x0C => Some(Opcode::IncrementC),
            0x0D => Some(Opcode::DecrementC),
            0x0E => Some(Opcode::LoadImmIntoC),
            0x11 => Some(Opcode::LoadImmIntoDe),
            0x13 => Some(Opcode::IncrementDe),
            0x17 => Some(Opcode::RotateLeftA),
            0x18 => Some(Opcode::JumpRelative),
            0x1A => Some(Opcode::LoadAddrDeIntoA),
            0x1E => Some(Opcode::LoadImmIntoE),
            0x20 => Some(Opcode::JumpRelativeNZ),
            0x21 => Some(Opcode::LoadImmIntoHl),
            0x22 => Some(Opcode::LoadAintoAddrHlAndInc),
            0x23 => Some(Opcode::IncrementHl),
            0x28 => Some(Opcode::JumpRelativeZ),
            0x2E => Some(Opcode::LoadImmIntoL),
            0x31 => Some(Opcode::LoadImmIntoSp),
            0x32 => Some(Opcode::LoadAIntoAddrHlAndDec),
            0x3D => Some(Opcode::DecrementA),
            0x3E => Some(Opcode::LoadImmIntoA),
            0x4F => Some(Opcode::LoadAIntoC),
            0x57 => Some(Opcode::LoadAIntoD),
            0x67 => Some(Opcode::LoadAIntoH),
            0x77 => Some(Opcode::LoadAIntoAddrHl),
            0x7B => Some(Opcode::LoadEIntoA),
            0x95 => Some(Opcode::SubtractL),
            0xAF => Some(Opcode::XorA),
            0xC1 => Some(Opcode::PopBc),
            0xC5 => Some(Opcode::PushBc),
            0xC9 => Some(Opcode::Return),
            0xCB => Some(Opcode::Special),
            0xCD => Some(Opcode::CallAddrImm),
            0xE0 => Some(Opcode::LoadAIntoAddrImmIO),
            0xE2 => Some(Opcode::LoadAIntoAddrC),
            0xEA => Some(Opcode::LoadAIntoAddrImm),
            0xF0 => Some(Opcode::LoadAddrImmIOIntoA),
            0xFE => Some(Opcode::CompareImm),
            _ => None,
        };
        proof {
            match found {
                Some(opcode) => {
                    Self::lemma_decode_of_code(opcode);
                },
                None => {
                    assert forall|opcode: Opcode| opcode.code() != byte by {}
                },
            }
        }
        found
    }
}

/// An operation that is reached through the prefix. These bytes are a space
/// of their own: the same byte may stand for something else in the primary
/// table.
#[derive(Clone, Copy, Debug, PartialEq, Eq, Structural)]
pub enum SpecialOpcode {
    RotateLeftC,
    Bit7H,
}

impl SpecialOpcode {
    /// The byte that stands for the operation in the table of prefixed operations.
    pub open spec fn code(self) -> u8 {
        match self {
            SpecialOpcode::RotateLeftC => 0x11,
            SpecialOpcode::Bit7H => 0x7C,
        }
    }

    /// The operation that a byte stands for in the table of prefixed operations, if it stands for one.
    pub open spec fn decode(byte: u8) -> Option<SpecialOpcode> {
        if exists|opcode: SpecialOpcode| opcode.code() == byte {
            Some(choose|opcode: SpecialOpcode| opcode.code() == byte)
        } else {
            None
        }
    }

    /// No two operations share a byte.
    pub proof fn lemma_code_is_injective(a: SpecialOpcode, b: SpecialOpcode)
        requires
            a.code() == b.code(),
        ensures
            a == b,
    {
    }

    /// Decoding the byte of an operation gives that operation.
    pub proof fn lemma_decode_of_code(opcode: SpecialOpcode)
        ensures
            Self::decode(opcode.code()) == Some(opcode),
    {
        Self::lemma_code_is_injective(choose|other: SpecialOpcode| other.code() == opcode.code(), opcode);
    }

    /// The byte that stands for the operation.
    pub fn to_u8(self) -> (byte: u8)
        ensures
            byte == self.code(),
    {
        match self {
            SpecialOpcode::RotateLeftC => 0x11,
            SpecialOpcode::Bit7H => 0x7C,
        }
    }

    /// Looks a byte up in the table of prefixed operations.
    pub fn from_u8(byte: u8) -> (found: Option<SpecialOpcode>)
        ensures
            found == Self::decode(byte),
            found matches Some(opcode) ==> opcode.code() == byte,
            found is None ==> forall|opcode: SpecialOpcode| opcode.code() != byte,
    {
        let found = match byte {
            0x11 => Some(SpecialOpcode::RotateLeftC),
            0x7C => Some(SpecialOpcode::Bit7H),
            _ => None,
        };
        proof {
            match found {
                Some(opcode) => {
                    Self::lemma_decode_of_code(opcode);
                },
                None => {
                    assert forall|opcode: SpecialOpcode| opcode.code() != byte by {}
                },
            }
        }
        found
    }
}

} // verus!
