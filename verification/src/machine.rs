//! The whole machine as a mathematical value, and the steps that both
//! engines are built from. Each step is a function from the state before
//! it to the state after it and its result; a step that fails keeps what
//! the steps before it have done.

use vstd::prelude::*;
use crate::cpu::opcode::SpecialOpcode;
use crate::cpu::registers::{ByteRegister, RegisterState, WordRegister, shift_in};
use crate::cpu::registers::{CARRY_FLAG, HALF_CARRY_FLAG, SUBTRACT_FLAG, ZERO_FLAG};
use crate::cpu::registers::{REG_A, REG_AF, REG_C, REG_F, REG_H};
use crate::cpu::registers::{lemma_subtract_flags, lemma_tidy_is_kept};
use crate::fault::Fault;
use crate::memory::MemoryState;
use crate::memory::memory_map::IO_BASE_REG;
use crate::word::{sign_extend, wrap8, wrap16, lemma_split_then_join};

verus! {

/// The registers and the memory of a machine.
pub struct MachineState {
    pub registers: RegisterState,
    pub memory: MemoryState,
}

impl MachineState {
    /// The same machine with other registers.
    pub open spec fn with_registers(self, registers: RegisterState) -> MachineState {
        MachineState { registers, ..self }
    }

    /// The same machine with another memory.
    pub open spec fn with_memory(self, memory: MemoryState) -> MachineState {
        MachineState { memory, ..self }
    }

    /// The same machine with the program counter moved on by `count`.
    pub open spec fn advanced(self, count: int) -> MachineState {
        self.with_registers(self.registers.with_pc(wrap16(self.registers.pc + count)))
    }

    /// Reads the byte at the program counter and moves the counter past it.
    /// Where the read fails, the counter stays.
    pub open spec fn fetch_byte(self) -> (MachineState, Result<u8, Fault>) {
        match self.memory.read(self.registers.pc) {
            Ok(byte) => (self.advanced(1), Ok(byte)),
            Err(fault) => (self, Err(fault)),
        }
    }

    /// Reads the word at the program counter and moves the counter past it.
    /// Where the read fails, the counter stays.
    pub open spec fn fetch_word(self) -> (MachineState, Result<u16, Fault>) {
        match self.memory.read_word(self.registers.pc) {
            Ok(value) => (self.advanced(2), Ok(value)),
            Err(fault) => (self, Err(fault)),
        }
    }

    /// Writes a byte to memory.
    pub open spec fn store(self, address: u16, value: u8) -> (MachineState, Result<(), Fault>) {
        let written = self.memory.write(address, value);
        (self.with_memory(written.0), written.1)
    }

    /// Writes a word to memory.
    pub open spec fn store_word(self, address: u16, value: u16) -> (
        MachineState,
        Result<(), Fault>,
    ) {
        let written = self.memory.write_word(address, value);
        (self.with_memory(written.0), written.1)
    }

    /// Reads a byte from memory into a slot.
    pub open spec fn load(self, address: u16, to: ByteRegister) -> (MachineState, Result<(), Fault>) {
        match self.memory.read(address) {
            Ok(value) => (self.with_registers(self.registers.with_byte(to, value)), Ok(())),
            Err(fault) => (self, Err(fault)),
        }
    }

    /// Pushes a word: it is written to the address one below the stack
    /// pointer, then the stack pointer goes down by two. Where the write
    /// fails, the stack pointer stays.
    pub open spec fn push(self, value: u16) -> (MachineState, Result<(), Fault>) {
        let stored = self.store_word(wrap16(self.registers.sp - 1), value);
        match stored.1 {
            Ok(_) => (
                stored.0.with_registers(self.registers.with_sp(wrap16(self.registers.sp - 2))),
                Ok(()),
            ),
            Err(fault) => stored,
        }
    }

    /// Pops a word: it is read from the address one above the stack
    /// pointer, then the stack pointer goes up by two. Where the read
    /// fails, the stack pointer stays.
    pub open spec fn pop(self) -> (MachineState, Result<u16, Fault>) {
        match self.memory.read_word(wrap16(self.registers.sp + 1)) {
            Ok(value) => (
                self.with_registers(self.registers.with_sp(wrap16(self.registers.sp + 2))),
                Ok(value),
            ),
            Err(fault) => (self, Err(fault)),
        }
    }

    /// Loads the byte that follows the opcode into a slot.
    pub open spec fn load_immediate_byte(self, register: ByteRegister) -> (
        MachineState,
        Result<(), Fault>,
    ) {
        let fetched = self.fetch_byte();
        match fetched.1 {
            Ok(value) => (
                fetched.0.with_registers(fetched.0.registers.with_byte(register, value)),
                Ok(()),
            ),
            Err(fault) => (fetched.0, Err(fault)),
        }
    }

    /// Loads the word that follows the opcode into a pair.
    pub open spec fn load_immediate_word(self, register: WordRegister) -> (
        MachineState,
        Result<(), Fault>,
    ) {
        let fetched = self.fetch_word();
        match fetched.1 {
            Ok(value) => (
                fetched.0.with_registers(fetched.0.registers.with_word(register, value)),
                Ok(()),
            ),
            Err(fault) => (fetched.0, Err(fault)),
        }
    }

    /// Loads the word that follows the opcode into the stack pointer.
    pub open spec fn load_immediate_stack_pointer(self) -> (MachineState, Result<(), Fault>) {
        let fetched = self.fetch_word();
        match fetched.1 {
            Ok(value) => (fetched.0.with_registers(fetched.0.registers.with_sp(value)), Ok(())),
            Err(fault) => (fetched.0, Err(fault)),
        }
    }

    /// Stores a slot at the address that follows the opcode.
    pub open spec fn transfer_to_immediate_address(self, from: ByteRegister) -> (
        MachineState,
        Result<(), Fault>,
    ) {
        let fetched = self.fetch_word();
        match fetched.1 {
            Ok(address) => fetched.0.store(address, fetched.0.registers.byte(from)),
            Err(fault) => (fetched.0, Err(fault)),
        }
    }

    /// Stores a slot at the address that a pair holds.
    pub open spec fn transfer_to_address(self, from: ByteRegister, to: WordRegister) -> (
        MachineState,
        Result<(), Fault>,
    ) {
        self.store(self.registers.word(to), self.registers.byte(from))
    }

    /// Loads a slot from the address that a pair holds.
    pub open spec fn transfer_from_address(self, from: WordRegister, to: ByteRegister) -> (
        MachineState,
        Result<(), Fault>,
    ) {
        self.load(self.registers.word(from), to)
    }

    /// Reads the address that follows the opcode and, where `taken` holds,
    /// jumps to it.
    pub open spec fn jump_if(self, taken: bool) -> (MachineState, Result<(), Fault>) {
        let fetched = self.fetch_word();
        match fetched.1 {
            Ok(target) => (
                if taken {
                    fetched.0.with_registers(fetched.0.registers.with_pc(target))
                } else {
                    fetched.0
                },
                Ok(()),
            ),
            Err(fault) => (fetched.0, Err(fault)),
        }
    }

    /// Jumps to the address that follows the opcode.
    pub open spec fn jump(self) -> (MachineState, Result<(), Fault>) {
        self.jump_if(true)
    }

    /// Jumps to the address that follows the opcode where the flag is as
    /// `condition` says.
    pub open spec fn jump_conditionally(self, flag: u8, condition: bool) -> (
        MachineState,
        Result<(), Fault>,
    ) {
        self.jump_if(self.registers.flag(flag) == condition)
    }

    /// Reads the signed byte that follows the opcode and, where `taken`
    /// holds, moves the program counter by it, counted from the address
    /// after that byte.
    pub open spec fn jump_relative_if(self, taken: bool) -> (MachineState, Result<(), Fault>) {
        let fetched = self.fetch_byte();
        match fetched.1 {
            Ok(offset) => (
                if taken {
                    fetched.0.advanced(sign_extend(offset) as int)
                } else {
                    fetched.0
                },
                Ok(()),
            ),
            Err(fault) => (fetched.0, Err(fault)),
        }
    }

    /// Moves the program counter by the signed byte that follows the
    /// opcode.
    pub open spec fn jump_relative(self) -> (MachineState, Result<(), Fault>) {
        self.jump_relative_if(true)
    }

    /// Moves the program counter by the signed byte that follows the opcode
    /// where the flag is as `condition` says.
    pub open spec fn jump_relative_conditionally(self, flag: u8, condition: bool) -> (
        MachineState,
        Result<(), Fault>,
    ) {
        self.jump_relative_if(self.registers.flag(flag) == condition)
    }

    /// Calls the address that follows the opcode: the address of the next
    /// instruction is pushed, then the program counter takes the target.
    pub open spec fn call(self) -> (MachineState, Result<(), Fault>) {
        let fetched = self.fetch_word();
        match fetched.1 {
            Ok(target) => {
                let pushed = fetched.0.push(fetched.0.registers.pc);
                match pushed.1 {
                    Ok(_) => (pushed.0.with_registers(pushed.0.registers.with_pc(target)), Ok(())),
                    Err(fault) => pushed,
                }
            },
            Err(fault) => (fetched.0, Err(fault)),
        }
    }

    /// Returns from a call: the program counter takes the popped word.
    pub open spec fn ret(self) -> (MachineState, Result<(), Fault>) {
        let popped = self.pop();
        match popped.1 {
            Ok(target) => (popped.0.with_registers(popped.0.registers.with_pc(target)), Ok(())),
            Err(fault) => (popped.0, Err(fault)),
        }
    }

    /// The same machine with other registers, as the outcome of a step that
    /// cannot fail.
    pub open spec fn done(self, registers: RegisterState) -> (MachineState, Result<(), Fault>) {
        (self.with_registers(registers), Ok(()))
    }

    /// The same machine with `delta` added to a pair, modulo 2^16.
    pub open spec fn adjusted(self, pair: WordRegister, delta: int) -> MachineState {
        self.with_registers(
            self.registers.with_word(pair, wrap16(self.registers.word(pair) + delta)),
        )
    }

    /// Stores a slot at the address that a pair holds, then adds `delta` to
    /// the pair. Where the write fails, the pair stays.
    pub open spec fn transfer_to_address_and_step(
        self,
        from: ByteRegister,
        to: WordRegister,
        delta: int,
    ) -> (MachineState, Result<(), Fault>) {
        let stored = self.transfer_to_address(from, to);
        match stored.1 {
            Ok(_) => (stored.0.adjusted(to, delta), Ok(())),
            Err(fault) => stored,
        }
    }

    /// Loads a slot from the address that a pair holds, then adds `delta`
    /// to the pair. Where the read fails, the pair stays.
    pub open spec fn transfer_from_address_and_step(
        self,
        from: WordRegister,
        to: ByteRegister,
        delta: int,
    ) -> (MachineState, Result<(), Fault>) {
        let loaded = self.transfer_from_address(from, to);
        match loaded.1 {
            Ok(_) => (loaded.0.adjusted(from, delta), Ok(())),
            Err(fault) => loaded,
        }
    }

    /// Stores the byte that follows the opcode at the address that a pair
    /// holds.
    pub open spec fn store_immediate(self, to: WordRegister) -> (MachineState, Result<(), Fault>) {
        let fetched = self.fetch_byte();
        match fetched.1 {
            Ok(value) => fetched.0.store(fetched.0.registers.word(to), value),
            Err(fault) => (fetched.0, Err(fault)),
        }
    }

    /// Stores a slot in the I/O block, at the offset that another slot
    /// holds.
    pub open spec fn store_io(self, from: ByteRegister, offset: ByteRegister) -> (
        MachineState,
        Result<(), Fault>,
    ) {
        self.store((IO_BASE_REG + self.registers.byte(offset)) as u16, self.registers.byte(from))
    }

    /// Stores a slot in the I/O block, at the offset that follows the
    /// opcode.
    pub open spec fn store_io_immediate(self, from: ByteRegister) -> (
        MachineState,
        Result<(), Fault>,
    ) {
        let fetched = self.fetch_byte();
        match fetched.1 {
            Ok(offset) => fetched.0.store(
                (IO_BASE_REG + offset) as u16,
                fetched.0.registers.byte(from),
            ),
            Err(fault) => (fetched.0, Err(fault)),
        }
    }

    /// Loads a slot from the I/O block, at the offset that follows the
    /// opcode.
    pub open spec fn load_io_immediate(self, to: ByteRegister) -> (MachineState, Result<(), Fault>) {
        let fetched = self.fetch_byte();
        match fetched.1 {
            Ok(offset) => fetched.0.load((IO_BASE_REG + offset) as u16, to),
            Err(fault) => (fetched.0, Err(fault)),
        }
    }

    /// Stores the stack pointer at the address that follows the opcode.
    pub open spec fn store_stack_pointer(self) -> (MachineState, Result<(), Fault>) {
        let fetched = self.fetch_word();
        match fetched.1 {
            Ok(address) => fetched.0.store_word(address, fetched.0.registers.sp),
            Err(fault) => (fetched.0, Err(fault)),
        }
    }

    /// Subtracts a slot from A: A takes the difference, and the flags are
    /// set from it.
    pub open spec fn subtract_from_a(self, operand: ByteRegister) -> (
        MachineState,
        Result<(), Fault>,
    ) {
        let a = self.registers.byte(ByteRegister(REG_A));
        let b = self.registers.byte(operand);
        self.done(self.registers.after_subtract(a, b).with_byte(ByteRegister(REG_A), wrap8(a - b)))
    }

    /// Compares A with the byte that follows the opcode: the flags are set
    /// as a subtraction would set them, and A stays.
    pub open spec fn compare_immediate(self) -> (MachineState, Result<(), Fault>) {
        let fetched = self.fetch_byte();
        match fetched.1 {
            Ok(value) => fetched.0.done(
                fetched.0.registers.after_subtract(
                    fetched.0.registers.byte(ByteRegister(REG_A)),
                    value,
                ),
            ),
            Err(fault) => (fetched.0, Err(fault)),
        }
    }

    /// Combines A with itself by exclusive or: A becomes zero and the Zero
    /// flag is set.
    pub open spec fn xor_a(self) -> (MachineState, Result<(), Fault>) {
        self.done(self.registers.with_flag(ZERO_FLAG, true).with_byte(ByteRegister(REG_A), 0))
    }

    /// Rotates a slot left through the Carry flag.
    pub open spec fn rotate_left(self, register: ByteRegister) -> (MachineState, Result<(), Fault>) {
        let value = self.registers.byte(register);
        let carry = self.registers.flag(CARRY_FLAG);
        self.done(
            self.registers.after_shift_left(value, carry).with_byte(
                register,
                shift_in(value, carry),
            ),
        )
    }

    /// Tests the highest bit of a slot: Zero tells whether it is clear,
    /// Subtract is cleared and Half-Carry is set.
    pub open spec fn test_high_bit(self, register: ByteRegister) -> (
        MachineState,
        Result<(), Fault>,
    ) {
        self.done(
            self.registers.with_flag(ZERO_FLAG, self.registers.byte(register) & 0x80 == 0).with_flag(
                SUBTRACT_FLAG,
                false,
            ).with_flag(HALF_CARRY_FLAG, true),
        )
    }

    /// Carries out an operation that was reached through the prefix.
    pub open spec fn execute_special(self, opcode: SpecialOpcode) -> (
        MachineState,
        Result<(), Fault>,
    ) {
        match opcode {
            SpecialOpcode::RotateLeftC => self.rotate_left(ByteRegister(REG_C)),
            SpecialOpcode::Bit7H => self.test_high_bit(ByteRegister(REG_H)),
        }
    }

    /// Looks a byte up among the prefixed operations and carries the
    /// operation out, or fails where the byte stands for none.
    pub open spec fn dispatch_special(self, byte: u8) -> (MachineState, Result<(), Fault>) {
        match SpecialOpcode::decode(byte) {
            Some(opcode) => self.execute_special(opcode),
            None => (self, Err(Fault::IllegalOpcode { byte, was_special: true })),
        }
    }

    /// What follows the prefix: the next byte is fetched, looked up among
    /// the prefixed operations and carried out.
    pub open spec fn prefixed(self) -> (MachineState, Result<(), Fault>) {
        let fetched = self.fetch_byte();
        match fetched.1 {
            Ok(byte) => fetched.0.dispatch_special(byte),
            Err(fault) => (fetched.0, Err(fault)),
        }
    }

    /// Pushes a pair.
    pub open spec fn push_pair(self, pair: WordRegister) -> (MachineState, Result<(), Fault>) {
        self.push(self.registers.word(pair))
    }

    /// Pops a word into a pair.
    pub open spec fn pop_pair(self, pair: WordRegister) -> (MachineState, Result<(), Fault>) {
        let popped = self.pop();
        match popped.1 {
            Ok(value) => (
                popped.0.with_registers(popped.0.registers.with_word(pair, value)),
                Ok(()),
            ),
            Err(fault) => (popped.0, Err(fault)),
        }
    }
}

/// None of the steps leaves anything in the lower nibble of F: where the
/// registers are tidy before a step, they are tidy after it, whether it
/// succeeds or fails. This holds of the steps that write to a slot or a
/// pair as long as that slot is not F and that pair is not AF.
pub proof fn lemma_steps_keep_tidy(state: MachineState)
    requires
        state.registers.tidy(),
    ensures
        forall|count: int| (#[trigger] state.advanced(count)).registers.tidy(),
        state.fetch_byte().0.registers.tidy(),
        state.fetch_word().0.registers.tidy(),
        forall|address: u16, value: u8| (#[trigger] state.store(address, value)).0.registers.tidy(),
        forall|address: u16, value: u16|
            (#[trigger] state.store_word(address, value)).0.registers.tidy(),
        forall|address: u16, to: ByteRegister|
            to.wf() && to != ByteRegister(REG_F) ==> (#[trigger] state.load(
                address,
                to,
            )).0.registers.tidy(),
        forall|value: u16| (#[trigger] state.push(value)).0.registers.tidy(),
        state.pop().0.registers.tidy(),
        forall|register: ByteRegister|
            register.wf() && register != ByteRegister(REG_F)
                ==> (#[trigger] state.load_immediate_byte(register)).0.registers.tidy(),
        forall|pair: WordRegister|
            pair.wf() && pair != WordRegister(REG_AF) ==> (#[trigger] state.load_immediate_word(
                pair,
            )).0.registers.tidy(),
        state.load_immediate_stack_pointer().0.registers.tidy(),
        forall|from: ByteRegister|
            (#[trigger] state.transfer_to_immediate_address(from)).0.registers.tidy(),
        forall|from: ByteRegister, to: WordRegister|
            (#[trigger] state.transfer_to_address(from, to)).0.registers.tidy(),
        forall|from: WordRegister, to: ByteRegister|
            to.wf() && to != ByteRegister(REG_F) ==> (#[trigger] state.transfer_from_address(
                from,
                to,
            )).0.registers.tidy(),
        forall|taken: bool| (#[trigger] state.jump_if(taken)).0.registers.tidy(),
        forall|taken: bool| (#[trigger] state.jump_relative_if(taken)).0.registers.tidy(),
        state.call().0.registers.tidy(),
        state.ret().0.registers.tidy(),
        forall|pair: WordRegister, delta: int|
            pair.wf() && pair != WordRegister(REG_AF) ==> (#[trigger] state.adjusted(
                pair,
                delta,
            )).registers.tidy(),
        forall|from: ByteRegister, to: WordRegister, delta: int|
            to.wf() && to != WordRegister(REG_AF)
                ==> (#[trigger] state.transfer_to_address_and_step(
                from,
                to,
                delta,
            )).0.registers.tidy(),
        forall|from: WordRegister, to: ByteRegister, delta: int|
            from.wf() && from != WordRegister(REG_AF) && to.wf() && to != ByteRegister(REG_F)
                ==> (#[trigger] state.transfer_from_address_and_step(
                from,
                to,
                delta,
            )).0.registers.tidy(),
        forall|to: WordRegister| (#[trigger] state.store_immediate(to)).0.registers.tidy(),
        forall|from: ByteRegister, offset: ByteRegister|
            (#[trigger] state.store_io(from, offset)).0.registers.tidy(),
        forall|from: ByteRegister| (#[trigger] state.store_io_immediate(from)).0.registers.tidy(),
        forall|to: ByteRegister|
            to.wf() && to != ByteRegister(REG_F) ==> (#[trigger] state.load_io_immediate(
                to,
            )).0.registers.tidy(),
        state.store_stack_pointer().0.registers.tidy(),
        forall|operand: ByteRegister|
            (#[trigger] state.subtract_from_a(operand)).0.registers.tidy(),
        state.compare_immediate().0.registers.tidy(),
        state.xor_a().0.registers.tidy(),
        forall|register: ByteRegister|
            register.wf() && register != ByteRegister(REG_F) ==> (#[trigger] state.rotate_left(
                register,
            )).0.registers.tidy(),
        forall|register: ByteRegister|
            (#[trigger] state.test_high_bit(register)).0.registers.tidy(),
        forall|pair: WordRegister| (#[trigger] state.push_pair(pair)).0.registers.tidy(),
        forall|pair: WordRegister|
            pair.wf() && pair != WordRegister(REG_AF) ==> (#[trigger] state.pop_pair(
                pair,
            )).0.registers.tidy(),
        forall|opcode: SpecialOpcode| (#[trigger] state.execute_special(opcode)).0.registers.tidy(),
        forall|byte: u8| (#[trigger] state.dispatch_special(byte)).0.registers.tidy(),
        state.prefixed().0.registers.tidy(),
{
    lemma_tidy_is_kept();
}

/// A call followed by a return goes on behind the call: the program counter
/// stands behind the operand of the call, and the other registers are as
/// they were, where the operand can be read and the two bytes that the call
/// writes to are mapped and take writes.
pub proof fn lemma_call_then_return(state: MachineState)
    requires
        state.memory.read_word(state.registers.pc) is Ok,
        state.memory.mapped(wrap16(state.registers.sp - 1)),
        state.memory.mapped(state.registers.sp),
        state.memory.writable.contains(wrap16(state.registers.sp - 1)),
        state.memory.writable.contains(state.registers.sp),
    ensures
        state.call().1 is Ok,
        state.call().0.registers == state.registers.with_sp(
            wrap16(state.registers.sp - 2),
        ).with_pc(state.memory.read_word(state.registers.pc)->Ok_0),
        state.call().0.ret().1 is Ok,
        state.call().0.ret().0.registers == state.registers.with_pc(
            wrap16(state.registers.pc + 2),
        ),
        state.call().0.ret().0.memory == state.call().0.memory,
{
    let fetched = state.fetch_word().0;
    lemma_push_then_pop(fetched, fetched.registers.pc);
}

/// Comparing A with a byte sets F exactly as subtracting the same byte from
/// A does, and leaves A as it was: Carry tells whether A is below the byte,
/// Half-Carry whether its lower nibble is below that of the byte.
pub proof fn lemma_compare_matches_subtract(state: MachineState, operand: ByteRegister)
    requires
        state.registers.wf(),
        operand.wf(),
        state.memory.read(state.registers.pc) == Ok::<u8, Fault>(state.registers.byte(operand)),
    ensures
        state.compare_immediate().1 is Ok,
        state.subtract_from_a(operand).1 is Ok,
        state.compare_immediate().0.registers.byte(ByteRegister(REG_F)) == state.subtract_from_a(
            operand,
        ).0.registers.byte(ByteRegister(REG_F)),
        state.compare_immediate().0.registers.byte(ByteRegister(REG_A)) == state.registers.byte(
            ByteRegister(REG_A),
        ),
        state.subtract_from_a(operand).0.registers.byte(ByteRegister(REG_A)) == wrap8(
            state.registers.byte(ByteRegister(REG_A)) - state.registers.byte(operand),
        ),
        state.compare_immediate().0.registers.flag(CARRY_FLAG) == (state.registers.byte(
            ByteRegister(REG_A),
        ) < state.registers.byte(operand)),
        state.compare_immediate().0.registers.flag(HALF_CARRY_FLAG) == ((state.registers.byte(
            ByteRegister(REG_A),
        ) & 0xF) < (state.registers.byte(operand) & 0xF)),
        state.compare_immediate().0.registers.flag(SUBTRACT_FLAG),
        state.compare_immediate().0.registers.flag(ZERO_FLAG) == (state.registers.byte(
            ByteRegister(REG_A),
        ) == state.registers.byte(operand)),
{
    lemma_subtract_flags(
        state.registers,
        state.registers.byte(ByteRegister(REG_A)),
        state.registers.byte(operand),
    );
    lemma_subtract_flags(
        state.advanced(1).registers,
        state.registers.byte(ByteRegister(REG_A)),
        state.registers.byte(operand),
    );
}

/// A push followed by a pop gives the pushed word back and leaves the
/// registers as they were, where the two bytes that the push writes to are
/// mapped and take writes.
pub proof fn lemma_push_then_pop(state: MachineState, value: u16)
    requires
        state.memory.mapped(wrap16(state.registers.sp - 1)),
        state.memory.mapped(state.registers.sp),
        state.memory.writable.contains(wrap16(state.registers.sp - 1)),
        state.memory.writable.contains(state.registers.sp),
    ensures
        state.push(value).1 is Ok,
        state.push(value).0.registers.sp == wrap16(state.registers.sp - 2),
        state.push(value).0.pop().1 == Ok::<u16, Fault>(value),
        state.push(value).0.pop().0.registers == state.registers,
        state.push(value).0.pop().0.memory == state.push(value).0.memory,
{
    lemma_split_then_join(value);
}

} // verus!
