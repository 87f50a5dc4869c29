//! The baseline engine: it fetches the byte at the program counter, decodes
//! it and carries the operation out, one instruction per step. The
//! register file and the table of prefixed operations that it shares with
//! the extended engine live here too.

pub mod instruction;
pub mod opcode;
pub mod registers;

use vstd::prelude::*;
use crate::fault::Fault;
use crate::machine::{MachineState, lemma_steps_keep_tidy};
use crate::memory::{Memory, IO_BASE_REG};
use crate::word::{signed, wrap8, wrap16};

use self::instruction::{Instruction, SpecialInstruction};
use self::opcode::{Opcode, SpecialOpcode};
use self::registers::{ByteRegister, RegisterState, Registers, WordRegister, shift_in};
use self::registers::lemma_tidy_is_kept;
use self::registers::{CARRY_FLAG, HALF_CARRY_FLAG, SUBTRACT_FLAG, ZERO_FLAG};
use self::registers::{REG_A, REG_B, REG_C, REG_D, REG_E, REG_H, REG_L};
use self::registers::{REG_BC, REG_DE, REG_HL};

verus! {

/// What carrying out an operation of the primary table does to a machine
/// whose program counter stands behind the opcode.
pub open spec fn execute(opcode: Opcode, state: MachineState) -> (MachineState, Result<(), Fault>) {
    let registers = state.registers;
    match opcode {
        Opcode::JumpRelative => state.jump_relative(),
        Opcode::JumpRelativeNZ => state.jump_relative_conditionally(ZERO_FLAG, false),
        Opcode::JumpRelativeZ => state.jump_relative_conditionally(ZERO_FLAG, true),
        Opcode::CallAddrImm => state.call(),
        Opcode::Return => state.ret(),
        Opcode::LoadAIntoC => state.done(
            registers.after_transfer(ByteRegister(REG_A), ByteRegister(REG_C)),
        ),
        Opcode::LoadAIntoD => state.done(
            registers.after_transfer(ByteRegister(REG_A), ByteRegister(REG_D)),
        ),
        Opcode::LoadAIntoH => state.done(
            registers.after_transfer(ByteRegister(REG_A), ByteRegister(REG_H)),
        ),
        Opcode::LoadEIntoA => state.done(
            registers.after_transfer(ByteRegister(REG_E), ByteRegister(REG_A)),
        ),
        Opcode::LoadAddrDeIntoA => state.transfer_from_address(
            WordRegister(REG_DE),
            ByteRegister(REG_A),
        ),
        Opcode::LoadImmIntoA => state.load_immediate_byte(ByteRegister(REG_A)),
        Opcode::LoadImmIntoB => state.load_immediate_byte(ByteRegister(REG_B)),
        Opcode::LoadImmIntoC => state.load_immediate_byte(ByteRegister(REG_C)),
        Opcode::LoadImmIntoE => state.load_immediate_byte(ByteRegister(REG_E)),
        Opcode::LoadImmIntoL => state.load_immediate_byte(ByteRegister(REG_L)),
        Opcode::LoadAintoAddrHlAndInc => state.transfer_to_address_and_step(
            ByteRegister(REG_A),
            WordRegister(REG_HL),
            1,
        ),
        Opcode::LoadAIntoAddrHlAndDec => state.transfer_to_address_and_step(
            ByteRegister(REG_A),
            WordRegister(REG_HL),
            -1,
        ),
        Opcode::LoadAIntoAddrHl => state.transfer_to_address(
            ByteRegister(REG_A),
            WordRegister(REG_HL),
        ),
        Opcode::LoadAIntoAddrC => state.store_io(ByteRegister(REG_A), ByteRegister(REG_C)),
        Opcode::LoadAIntoAddrImm => state.transfer_to_immediate_address(ByteRegister(REG_A)),
        Opcode::LoadAIntoAddrImmIO => state.store_io_immediate(ByteRegister(REG_A)),
        Opcode::LoadAddrImmIOIntoA => state.load_io_immediate(ByteRegister(REG_A)),
        Opcode::LoadImmIntoDe => state.load_immediate_word(WordRegister(REG_DE)),
        Opcode::LoadImmIntoHl => state.load_immediate_word(WordRegister(REG_HL)),
        Opcode::LoadImmIntoSp => state.load_immediate_stack_pointer(),
        Opcode::PushBc => state.push_pair(WordRegister(REG_BC)),
        Opcode::PopBc => state.pop_pair(WordRegister(REG_BC)),
        Opcode::DecrementA => state.done(registers.after_decrement(ByteRegister(REG_A))),
        Opcode::DecrementB => state.done(registers.after_decrement(ByteRegister(REG_B))),
        Opcode::DecrementC => state.done(registers.after_decrement(ByteRegister(REG_C))),
        Opcode::IncrementB => state.done(registers.after_increment(ByteRegister(REG_B))),
        Opcode::IncrementC => state.done(registers.after_increment(ByteRegister(REG_C))),
        Opcode::SubtractL => state.subtract_from_a(ByteRegister(REG_L)),
        Opcode::XorA => state.xor_a(),
        Opcode::CompareImm => state.compare_immediate(),
        Opcode::IncrementDe => (state.adjusted(WordRegister(REG_DE), 1), Ok(())),
        Opcode::IncrementHl => (state.adjusted(WordRegister(REG_HL), 1), Ok(())),
        Opcode::Special => state.prefixed(),
        Opcode::RotateLeftA => state.rotate_left(ByteRegister(REG_A)),
    }
}

/// Looks a byte up in the primary table and carries the operation out, or
/// fails where the byte stands for none.
pub open spec fn dispatch(byte: u8, state: MachineState) -> (MachineState, Result<(), Fault>) {
    match Opcode::decode(byte) {
        Some(opcode) => execute(opcode, state),
        None => (state, Err(Fault::IllegalOpcode { byte, was_special: false })),
    }
}

/// One step of the engine: the byte at the program counter is fetched, the
/// counter moves past it, and the byte is decoded and carried out. A step
/// that fails keeps what it had done until then.
pub open spec fn step(state: MachineState) -> (MachineState, Result<(), Fault>) {
    let fetched = state.fetch_byte();
    match fetched.1 {
        Ok(byte) => dispatch(byte, fetched.0),
        Err(fault) => (fetched.0, Err(fault)),
    }
}

/// The trace foretells the step: where the trace fails, the step fails
/// with the same fault; otherwise the step carries out the traced
/// operation on the machine with its program counter behind the bytes that
/// were decoded.
pub proof fn lemma_trace_foretells_step(state: MachineState)
    ensures
        match trace(state) {
            Err(fault) => step(state).1 == Err::<(), Fault>(fault),
            Ok(Trace { pc, opcode, special: None }) => {
                &&& pc == state.registers.pc
                &&& opcode != Opcode::Special
                &&& step(state) == execute(opcode, state.advanced(1))
            },
            Ok(Trace { pc, opcode, special: Some(special) }) => {
                &&& pc == state.registers.pc
                &&& opcode == Opcode::Special
                &&& step(state) == state.advanced(1).advanced(1).execute_special(special)
            },
        },
{
}

/// A byte that the primary table does not hold stops the step right after
/// the byte was fetched, with `IllegalOpcode` and `was_special` false.
pub proof fn lemma_illegal_opcode(state: MachineState, byte: u8)
    requires
        state.memory.read(state.registers.pc) == Ok::<u8, Fault>(byte),
        forall|opcode: Opcode| opcode.code() != byte,
    ensures
        step(state) == (
            state.advanced(1),
            Err::<(), Fault>(Fault::IllegalOpcode { byte, was_special: false }),
        ),
{
}

/// The prefix followed by a byte that the table of prefixed operations does
/// not hold stops the step right after both bytes were fetched, with
/// `IllegalOpcode` and `was_special` true.
pub proof fn lemma_illegal_special_opcode(state: MachineState, byte: u8)
    requires
        state.memory.read(state.registers.pc) == Ok::<u8, Fault>(Opcode::Special.code()),
        state.memory.read(wrap16(state.registers.pc + 1)) == Ok::<u8, Fault>(byte),
        forall|opcode: SpecialOpcode| opcode.code() != byte,
    ensures
        step(state) == (
            state.advanced(1).advanced(1),
            Err::<(), Fault>(Fault::IllegalOpcode { byte, was_special: true }),
        ),
{
    Opcode::lemma_decode_of_code(Opcode::Special);
}

/// No operation leaves anything in the lower nibble of F: where it is zero
/// before an operation, it is zero after it, whether the operation succeeds
/// or fails.
pub proof fn lemma_execute_keeps_tidy(opcode: Opcode, state: MachineState)
    requires
        state.registers.tidy(),
    ensures
        execute(opcode, state).0.registers.tidy(),
{
    lemma_tidy_is_kept();
    lemma_steps_keep_tidy(state);
}

/// No step leaves anything in the lower nibble of F.
pub proof fn lemma_step_keeps_tidy(state: MachineState)
    requires
        state.registers.tidy(),
    ensures
        step(state).0.registers.tidy(),
{
    lemma_tidy_is_kept();
    let fetched = state.fetch_byte();
    if let Ok(byte) = fetched.1 {
        if let Some(opcode) = Opcode::decode(byte) {
            lemma_execute_keeps_tidy(opcode, fetched.0);
        }
    }
}

/// What an engine is about to do: the place of the next opcode, the
/// operation that it stands for and, where that is the prefix, the
/// operation that the byte after it stands for.
#[derive(Clone, Copy, Debug, PartialEq, Eq)]
pub struct Trace {
    pub pc: u16,
    pub opcode: Opcode,
    pub special: Option<SpecialOpcode>,
}

/// What the next step of a machine will fetch and decode, or the failure
/// that fetching and decoding will end in. Nothing is carried out.
pub open spec fn trace(state: MachineState) -> Result<Trace, Fault> {
    let pc = state.registers.pc;
    match state.memory.read(pc) {
        Err(fault) => Err(fault),
        Ok(byte) => match Opcode::decode(byte) {
            None => Err(Fault::IllegalOpcode { byte, was_special: false }),
            Some(Opcode::Special) => match state.memory.read(wrap16(pc + 1)) {
                Err(fault) => Err(fault),
                Ok(next) => match SpecialOpcode::decode(next) {
                    None => Err(Fault::IllegalOpcode { byte: next, was_special: true }),
                    Some(special) => Ok(
                        Trace { pc, opcode: Opcode::Special, special: Some(special) },
                    ),
                },
            },
            Some(opcode) => Ok(Trace { pc, opcode, special: None }),
        },
    }
}

/// The baseline engine: a register file and the memory it works on.
pub struct Cpu<M: Memory> {
    registers: Registers,
    memory: M,
}

impl<M: Memory> View for Cpu<M> {
    type V = MachineState;

    closed spec fn view(&self) -> MachineState {
        MachineState { registers: self.registers@, memory: self.memory@ }
    }
}

impl<M: Memory> Cpu<M> {
    /// An engine over `memory`, with all registers at zero.
    pub fn new(memory: M) -> (cpu: Cpu<M>)
        ensures
            cpu@.registers == RegisterState::reset(),
            cpu@.memory == memory@,
    {
        Cpu { registers: Registers::new(), memory: memory }
    }

    /// The register file.
    pub fn registers(&self) -> (registers: &Registers)
        ensures
            registers@ == self@.registers,
    {
        &self.registers
    }

    /// The register file, to change it in place. The memory stays as it
    /// is.
    pub fn registers_mut(&mut self) -> (registers: &mut Registers)
        ensures
            registers@ == old(self)@.registers,
            final(self)@ == old(self)@.with_registers(final(registers)@),
    {
        &mut self.registers
    }

    /// The memory.
    pub fn memory(&self) -> (memory: &M)
        ensures
            memory@ == self@.memory,
    {
        &self.memory
    }

    /// The memory, to change it in place. The registers stay as they are.
    pub fn memory_mut(&mut self) -> (memory: &mut M)
        ensures
            memory@ == old(self)@.memory,
            final(self)@ == old(self)@.with_memory(final(memory)@),
    {
        &mut self.memory
    }

    /// Tells what the next step will fetch and decode, without carrying
    /// anything out.
    pub fn trace(&self) -> (result: Result<Trace, Fault>)
        ensures
            result == trace(self@),
    {
        let pc: u16 = self.registers.get_program_counter();
        let opcode = Instruction(self.memory.read_byte(pc)?).opcode()?;
        match opcode {
            Opcode::Special => {
                let next: u8 = self.memory.read_byte(pc.wrapping_add(1))?;
                let special = SpecialInstruction(next).opcode()?;
                Ok(Trace { pc, opcode, special: Some(special) })
            },
            _ => Ok(Trace { pc, opcode, special: None }),
        }
    }

    /// Carries out one instruction: the byte at the program counter is
    /// fetched and decoded, and the operation is carried out. A step that
    /// fails keeps what it had done until then. Where the lower nibble of F
    /// was zero before the step, it is zero after it.
    pub fn step(&mut self) -> (result: Result<(), Fault>)
        ensures
            final(self)@ == step(old(self)@).0,
            result == step(old(self)@).1,
            old(self)@.registers.flags_clean() ==> final(self)@.registers.flags_clean(),
    {
        proof {
            self.registers.lemma_wf();
            if self@.registers.flags_clean() {
                lemma_step_keeps_tidy(self@);
            }
        }
        let instruction = self.read_instruction()?;

        self.execute_instruction(instruction)
    }

    /// Fetches the byte at the program counter as an opcode of the primary
    /// table and moves the counter past it.
    fn read_instruction(&mut self) -> (result: Result<Instruction, Fault>)
        ensures
            final(self)@ == old(self)@.fetch_byte().0,
            match result {
                Ok(instruction) => old(self)@.fetch_byte().1 == Ok::<u8, Fault>(instruction.0),
                Err(fault) => old(self)@.fetch_byte().1 == Err::<u8, Fault>(fault),
            },
    {
        let pc: u16 = self.registers.get_program_counter();

        let instruction = Instruction(self.memory.read_byte(pc)?);

        self.registers.increment_program_counter(1);

        Ok(instruction)
    }

    /// Fetches the byte at the program counter as a prefixed opcode and moves
    /// the counter past it.
    fn read_special_instruction(&mut self) -> (result: Result<SpecialInstruction, Fault>)
        ensures
            final(self)@ == old(self)@.fetch_byte().0,
            match result {
                Ok(instruction) => old(self)@.fetch_byte().1 == Ok::<u8, Fault>(instruction.0),
                Err(fault) => old(self)@.fetch_byte().1 == Err::<u8, Fault>(fault),
            },
    {
        let pc: u16 = self.registers.get_program_counter();

        let special_instruction = SpecialInstruction(self.memory.read_byte(pc)?);

        self.registers.increment_program_counter(1);

        Ok(special_instruction)
    }

    /// Fetches the byte at the program counter as an operand and moves the
    /// counter past it.
    fn read_immediate_byte(&mut self) -> (result: Result<u8, Fault>)
        ensures
            final(self)@ == old(self)@.fetch_byte().0,
            result == old(self)@.fetch_byte().1,
    {
        let pc: u16 = self.registers.get_program_counter();
        let immediate: u8 = self.memory.read_byte(pc)?;

        self.registers.increment_program_counter(1);

        Ok(immediate)
    }

    /// Fetches the word at the program counter as an operand and moves the
    /// counter past it.
    fn read_immediate_word(&mut self) -> (result: Result<u16, Fault>)
        ensures
            final(self)@ == old(self)@.fetch_word().0,
            result == old(self)@.fetch_word().1,
    {
        let pc: u16 = self.registers.get_program_counter();
        let immediate: u16 = self.memory.read_word(pc)?;

        self.registers.increment_program_counter(2);

        Ok(immediate)
    }

    /// Pushes a word onto the stack.
    pub fn stack_push(&mut self, value: u16) -> (result: Result<(), Fault>)
        ensures
            final(self)@ == old(self)@.push(value).0,
            result == old(self)@.push(value).1,
    {
        let sp: u16 = self.registers.get_stack_pointer();
        let address: u16 = sp.wrapping_sub(1);

        self.memory.write_word(address, value)?;
        self.registers.decrement_stack_pointer(2);
        Ok(())
    }

    /// Pops a word off the stack.
    pub fn stack_pop(&mut self) -> (result: Result<u16, Fault>)
        ensures
            final(self)@ == old(self)@.pop().0,
            result == old(self)@.pop().1,
    {
        let sp: u16 = self.registers.get_stack_pointer();
        let address: u16 = sp.wrapping_add(1);

        let value: u16 = self.memory.read_word(address)?;
        self.registers.increment_stack_pointer(2);
        Ok(value)
    }

    /// Decodes a fetched byte and carries the operation out.
    pub fn execute_instruction(&mut self, instruction: Instruction) -> (result: Result<(), Fault>)
        ensures
            final(self)@ == dispatch(instruction.0, old(self)@).0,
            result == dispatch(instruction.0, old(self)@).1,
    {
        proof {
            self.registers.lemma_wf();
        }
        match instruction.opcode()? {
            Opcode::JumpRelative => {
                let offset: u8 = self.read_immediate_byte()?;

                self.registers.increment_program_counter(signed(offset));
                Ok(())
            },
            Opcode::JumpRelativeNZ => {
                let offset: u8 = self.read_immediate_byte()?;

                if !self.registers.get_flag(ZERO_FLAG) {
                    self.registers.increment_program_counter(signed(offset));
                }
                Ok(())
            },
            Opcode::JumpRelativeZ => {
                let offset: u8 = self.read_immediate_byte()?;

                if self.registers.get_flag(ZERO_FLAG) {
                    self.registers.increment_program_counter(signed(offset));
                }
                Ok(())
            },
            Opcode::CallAddrImm => {
                let value: u16 = self.read_immediate_word()?;
                let pc: u16 = self.registers.get_program_counter();

                self.stack_push(pc)?;
                self.registers.set_program_counter(value);
                Ok(())
            },
            Opcode::Return => {
                let value: u16 = self.stack_pop()?;

                self.registers.set_program_counter(value);
                Ok(())
            },
            Opcode::LoadEIntoA => {
                let e: u8 = self.registers.read_byte(ByteRegister(REG_E));

                self.registers.write_byte(ByteRegister(REG_A), e);
                Ok(())
            },
            Opcode::LoadAIntoC => {
                let a: u8 = self.registers.read_byte(ByteRegister(REG_A));

                self.registers.write_byte(ByteRegister(REG_C), a);
                Ok(())
            },
            Opcode::LoadAIntoD => {
                let a: u8 = self.registers.read_byte(ByteRegister(REG_A));

                self.registers.write_byte(ByteRegister(REG_D), a);
                Ok(())
            },
            Opcode::LoadAIntoH => {
                let a: u8 = self.registers.read_byte(ByteRegister(REG_A));

                self.registers.write_byte(ByteRegister(REG_H), a);
                Ok(())
            },
            Opcode::LoadAddrDeIntoA => {
                let de: u16 = self.registers.read_word(WordRegister(REG_DE));
                let value: u8 = self.memory.read_byte(de)?;

                self.registers.write_byte(ByteRegister(REG_A), value);
                Ok(())
            },
            Opcode::LoadImmIntoA => {
                let value: u8 = self.read_immediate_byte()?;

                self.registers.write_byte(ByteRegister(REG_A), value);
                Ok(())
            },
            Opcode::LoadImmIntoB => {
                let value: u8 = self.read_immediate_byte()?;

                self.registers.write_byte(ByteRegister(REG_B), value);
                Ok(())
            },
            Opcode::LoadImmIntoC => {
                let value: u8 = self.read_immediate_byte()?;

                self.registers.write_byte(ByteRegister(REG_C), value);
                Ok(())
            },
            Opcode::LoadImmIntoE => {
                let value: u8 = self.read_immediate_byte()?;

                self.registers.write_byte(ByteRegister(REG_E), value);
                Ok(())
            },
            Opcode::LoadImmIntoL => {
                let value: u8 = self.read_immediate_byte()?;

                self.registers.write_byte(ByteRegister(REG_L), value);
                Ok(())
            },
            Opcode::LoadAintoAddrHlAndInc => {
                let a: u8 = self.registers.read_byte(ByteRegister(REG_A));
                let hl: u16 = self.registers.read_word(WordRegister(REG_HL));

                self.memory.write_byte(hl, a)?;
                self.registers.increment_word(WordRegister(REG_HL));
                Ok(())
            },
            Opcode::LoadAIntoAddrHlAndDec => {
                let a: u8 = self.registers.read_byte(ByteRegister(REG_A));
                let hl: u16 = self.registers.read_word(WordRegister(REG_HL));

                self.memory.write_byte(hl, a)?;
                self.registers.decrement_word(WordRegister(REG_HL));
                Ok(())
            },
            Opcode::LoadAIntoAddrHl => {
                let a: u8 = self.registers.read_byte(ByteRegister(REG_A));
                let hl: u16 = self.registers.read_word(WordRegister(REG_HL));

                self.memory.write_byte(hl, a)
            },
            Opcode::LoadAIntoAddrC => {
                let a: u8 = self.registers.read_byte(ByteRegister(REG_A));
                let c: u8 = self.registers.read_byte(ByteRegister(REG_C));
                let address: u16 = IO_BASE_REG + c as u16;

                self.memory.write_byte(address, a)
            },
            Opcode::LoadAIntoAddrImm => {
                let a: u8 = self.registers.read_byte(ByteRegister(REG_A));
                let value: u16 = self.read_immediate_word()?;

                self.memory.write_byte(value, a)
            },
            Opcode::LoadAIntoAddrImmIO => {
                let a: u8 = self.registers.read_byte(ByteRegister(REG_A));
                let value: u8 = self.read_immediate_byte()?;
                let address: u16 = IO_BASE_REG + value as u16;

                self.memory.write_byte(address, a)
            },
            Opcode::LoadAddrImmIOIntoA => {
                let value: u8 = self.read_immediate_byte()?;
                let address: u16 = IO_BASE_REG + value as u16;
                let value: u8 = self.memory.read_byte(address)?;

                self.registers.write_byte(ByteRegister(REG_A), value);
                Ok(())
            },
            Opcode::LoadImmIntoDe => {
                let immediate: u16 = self.read_immediate_word()?;

                self.registers.write_word(WordRegister(REG_DE), immediate);
                Ok(())
            },
            Opcode::LoadImmIntoHl => {
                let immediate: u16 = self.read_immediate_word()?;

                self.registers.write_word(WordRegister(REG_HL), immediate);
                Ok(())
            },
            Opcode::LoadImmIntoSp => {
                let address: u16 = self.read_immediate_word()?;

                self.registers.set_stack_pointer(address);
                Ok(())
            },
            Opcode::PushBc => {
                let bc: u16 = self.registers.read_word(WordRegister(REG_BC));

                self.stack_push(bc)
            },
            Opcode::PopBc => {
                let value: u16 = self.stack_pop()?;

                self.registers.write_word(WordRegister(REG_BC), value);
                Ok(())
            },
            Opcode::DecrementA => {
                self.registers.decrement_byte(ByteRegister(REG_A));
                Ok(())
            },
            Opcode::DecrementB => {
                self.registers.decrement_byte(ByteRegister(REG_B));
                Ok(())
            },
            Opcode::DecrementC => {
                self.registers.decrement_byte(ByteRegister(REG_C));
                Ok(())
            },
            Opcode::IncrementB => {
                self.registers.increment_byte(ByteRegister(REG_B));
                Ok(())
            },
            Opcode::IncrementC => {
                self.registers.increment_byte(ByteRegister(REG_C));
                Ok(())
            },
            Opcode::SubtractL => {
                let a: u8 = self.registers.read_byte(ByteRegister(REG_A));
                let l: u8 = self.registers.read_byte(ByteRegister(REG_L));
                let result: u8 = self.subtract(a, l);

                self.registers.write_byte(ByteRegister(REG_A), result);
                Ok(())
            },
            Opcode::XorA => {
                let a: u8 = self.registers.read_byte(ByteRegister(REG_A));
                let result: u8 = a ^ a;
                assert(a ^ a == 0) by (bit_vector);

                self.registers.set_flag(ZERO_FLAG, result == 0);
                self.registers.write_byte(ByteRegister(REG_A), result);
                Ok(())
            },
            Opcode::CompareImm => {
                let a: u8 = self.registers.read_byte(ByteRegister(REG_A));
                let value: u8 = self.read_immediate_byte()?;
                let _ = self.subtract(a, value);
                Ok(())
            },
            Opcode::IncrementDe => {
                self.registers.increment_word(WordRegister(REG_DE));
                Ok(())
            },
            Opcode::IncrementHl => {
                self.registers.increment_word(WordRegister(REG_HL));
                Ok(())
            },
            Opcode::Special => {
                let special_instruction = self.read_special_instruction()?;

                self.execute_special_instruction(special_instruction)
            },
            Opcode::RotateLeftA => {
                let a: u8 = self.registers.read_byte(ByteRegister(REG_A));
                let carry: bool = self.registers.get_flag(CARRY_FLAG);
                let value: u8 = self.shift_left(a, carry);

                self.registers.write_byte(ByteRegister(REG_A), value);
                Ok(())
            },
        }
    }

    /// Decodes a byte that was fetched after the prefix and carries the
    /// operation out.
    pub fn execute_special_instruction(&mut self, special_instruction: SpecialInstruction) -> (result:
        Result<(), Fault>)
        ensures
            final(self)@ == old(self)@.dispatch_special(special_instruction.0).0,
            result == old(self)@.dispatch_special(special_instruction.0).1,
    {
        match special_instruction.opcode()? {
            SpecialOpcode::Bit7H => {
                let h: u8 = self.registers.read_byte(ByteRegister(REG_H));

                self.registers.set_flag(ZERO_FLAG, (h & 0x80) == 0);
                self.registers.set_flag(SUBTRACT_FLAG, false);
                self.registers.set_flag(HALF_CARRY_FLAG, true);
                Ok(())
            },
            SpecialOpcode::RotateLeftC => {
                let c: u8 = self.registers.read_byte(ByteRegister(REG_C));
                let carry: bool = self.registers.get_flag(CARRY_FLAG);
                let value: u8 = self.shift_left(c, carry);

                self.registers.write_byte(ByteRegister(REG_C), value);
                Ok(())
            },
        }
    }

    /// Shifts `value` left by one place with `lsb` as the new lowest bit,
    /// and sets Zero and Carry from it.
    pub fn shift_left(&mut self, value: u8, lsb: bool) -> (result: u8)
        ensures
            result == shift_in(value, lsb),
            final(self)@ == old(self)@.with_registers(
                old(self)@.registers.after_shift_left(value, lsb),
            ),
    {
        self.registers.shift_left(value, lsb)
    }

    /// Computes `a - b`, wrapping at zero, and sets all four flags from it.
    pub fn subtract(&mut self, a: u8, b: u8) -> (result: u8)
        ensures
            result == wrap8(a - b),
            final(self)@ == old(self)@.with_registers(old(self)@.registers.after_subtract(a, b)),
    {
        self.registers.subtract(a, b)
    }
}

} // verus!
