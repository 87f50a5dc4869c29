//! Fetched bytes, before they are decoded.

use vstd::prelude::*;
use crate::fault::Fault;
use crate::processor::opcode::Opcode;

pub use crate::cpu::instruction::SpecialInstruction;

verus! {

/// A byte that was fetched as an opcode of the primary table.
#[derive(Clone, Copy, Debug)]
pub struct Instruction(pub u8);

impl Instruction {
    /// What decoding the byte against the primary table gives.
    pub open spec fn decoded(self) -> Result<Opcode, Fault> {
        match Opcode::decode(self.0) {
            Some(opcode) => Ok(opcode),
            None => Err(Fault::IllegalOpcode { byte: self.0, was_special: false }),
        }
    }

    /// Decodes the byte: the operation that it stands for in the primary
    /// table, or a failure where it stands for none.
    pub fn opcode(&self) -> (result: Result<Opcode, Fault>)
        ensures
            result == self.decoded(),
            result matches Ok(opcode) ==> opcode.code() == self.0,
            result is Err ==> forall|opcode: Opcode| opcode.code() != self.0,
    {
        match Opcode::from_u8(self.0) {
            Some(opcode) => Ok(opcode),
            None => Err(Fault::IllegalOpcode { byte: self.0, was_special: false }),
        }
    }
}

} // verus!
