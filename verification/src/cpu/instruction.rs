//! Fetched bytes, before they are decoded.

use vstd::prelude::*;
use crate::cpu::opcode::{Opcode, SpecialOpcode};
use crate::fault::Fault;

verus! {

/// A byte that was fetched as an opcode of the primary table.
#[derive(Clone, Copy, Debug)]
pub struct Instruction(pub u8);

impl Instruction {
    /// What decoding the byte against the primary table gives.
    pub open spec fn decoded(self) -> Result<Opcode, Fault> {
        match Opcode::decode(self.0) {
            Some(opcode) => Ok(opcode),
            None => Err(Fault::IllegalOpcode { byte: self.0, was_special: false }),
        }
    }

    /// Decodes the byte: the operation that it stands for in the primary
    /// table, or a failure where it stands for none.
    pub fn opcode(&self) -> (result: Result<Opcode, Fault>)
        ensures
            result == self.decoded(),
            result matches Ok(opcode) ==> opcode.code() == self.0,
            result is Err ==> forall|opcode: Opcode| opcode.code() != self.0,
    {
        match Opcode::from_u8(self.0) {
            Some(opcode) => Ok(opcode),
            None => Err(Fault::IllegalOpcode { byte: self.0, was_special: false }),
        }
    }
}

/// A byte that was fetched after the prefix, as an opcode of the table of
/// prefixed operations.
#[derive(Clone, Copy, Debug)]
pub struct SpecialInstruction(pub u8);

impl SpecialInstruction {
    /// What decoding the byte against the table of prefixed operations
    /// gives.
    pub open spec fn decoded(self) -> Result<SpecialOpcode, Fault> {
        match SpecialOpcode::decode(self.0) {
            Some(opcode) => Ok(opcode),
            None => Err(Fault::IllegalOpcode { byte: self.0, was_special: true }),
        }
    }

    /// Decodes the byte: the prefixed operation that it stands for, or a
    /// failure where it stands for none.
    pub fn opcode(&self) -> (result: Result<SpecialOpcode, Fault>)
        ensures
            result == self.decoded(),
            result matches Ok(opcode) ==> opcode.code() == self.0,
            result is Err ==> forall|opcode: SpecialOpcode| opcode.code() != self.0,
    {
        match SpecialOpcode::from_u8(self.0) {
            Some(opcode) => Ok(opcode),
            None => Err(Fault::IllegalOpcode { byte: self.0, was_special: true }),
        }
    }
}

} // verus!
