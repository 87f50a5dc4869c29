//! The register file: eight byte slots that pair up into four words, a stack
//! pointer and a program counter.

use vstd::prelude::*;
use crate::word::{high_byte, low_byte, word, wrap8, wrap16, split, join, offset_by, offset_back};
use crate::word::lemma_halves_as_bits;

verus! {

/// Number of byte slots in the register file.
pub const NUM_GPR: usize = 8;

/// Bit of F that records a result of zero.
pub const ZERO_FLAG: u8 = 0x80;

/// Bit of F that records that the last operation subtracted.
pub const SUBTRACT_FLAG: u8 = 0x40;

/// Bit of F that records a carry or borrow between the two nibbles.
pub const HALF_CARRY_FLAG: u8 = 0x20;

/// Bit of F that records a carry or borrow out of the byte.
pub const CARRY_FLAG: u8 = 0x10;

/// Place of the slot A in the register file.
pub const REG_A: usize = 0;

/// Place of the slot F, which holds the flags.
pub const REG_F: usize = 1;

/// Place of the slot B.
pub const REG_B: usize = 2;

/// Place of the slot C.
pub const REG_C: usize = 3;

/// Place of the slot D.
pub const REG_D: usize = 4;

/// Place of the slot E.
pub const REG_E: usize = 5;

/// Place of the slot H.
pub const REG_H: usize = 6;

/// Place of the slot L.
pub const REG_L: usize = 7;

/// Place at which the pair AF starts.
pub const REG_AF: usize = 0;

/// Place at which the pair BC starts.
pub const REG_BC: usize = 2;

/// Place at which the pair DE starts.
pub const REG_DE: usize = 4;

/// Place at which the pair HL starts.
pub const REG_HL: usize = 6;

/// A byte slot, named by its place in the register file. The slots lie in
/// the order A, F, B, C, D, E, H, L.
#[derive(Clone, Copy, Debug, PartialEq, Eq, Structural)]
pub struct ByteRegister(pub usize);

/// A pair of adjacent slots, named by the place of its first slot and read
/// as one word with that slot as the upper byte.
#[derive(Clone, Copy, Debug, PartialEq, Eq, Structural)]
pub struct WordRegister(pub usize);

impl ByteRegister {
    /// The slot's place in the register file.
    pub open spec fn index(self) -> int {
        self.0 as int
    }

    /// A slot exists only at the places 0 to 7.
    pub open spec fn wf(self) -> bool {
        self.0 < NUM_GPR
    }
}

impl WordRegister {
    /// The four pairs start at the even places.
    pub open spec fn wf(self) -> bool {
        self.0 % 2 == 0 && self.0 + 1 < NUM_GPR
    }

    /// The slot that holds the pair's upper byte.
    pub open spec fn spec_high(self) -> ByteRegister {
        ByteRegister(self.0)
    }

    /// The slot that holds the pair's lower byte.
    pub open spec fn spec_low(self) -> ByteRegister {
        ByteRegister((self.0 + 1) as usize)
    }

    /// The slot that holds the pair's upper byte.
    #[verifier::when_used_as_spec(spec_high)]
    pub fn high(self) -> (register: ByteRegister)
        ensures
            register == self.spec_high(),
    {
        ByteRegister(self.0)
    }

    /// The slot that holds the pair's lower byte.
    #[verifier::when_used_as_spec(spec_low)]
    pub fn low(self) -> (register: ByteRegister)
        requires
            self.wf(),
        ensures
            register == self.spec_low(),
            register.wf(),
    {
        ByteRegister(self.0 + 1)
    }
}

/// A byte with the bits of `mask` switched on or off.
pub open spec fn set_bits(byte: u8, mask: u8, on: bool) -> u8 {
    if on {
        byte | mask
    } else {
        byte & !mask
    }
}

/// Whether adding one carries out of the lower nibble.
pub open spec fn half_carry_up(byte: u8) -> bool {
    (((byte & 0xF) + 1) as u8) & 0x10 != 0
}

/// Whether subtracting one borrows into the lower nibble.
pub open spec fn half_carry_down(byte: u8) -> bool {
    wrap8((byte & 0xF) - 1) & 0x10 != 0
}

/// A byte shifted left by one place, with `carry_in` as its lowest bit.
pub open spec fn shift_in(value: u8, carry_in: bool) -> u8 {
    if carry_in {
        (value << 1) | 1
    } else {
        value << 1
    }
}

/// The register file as a mathematical value.
pub struct RegisterState {
    /// The byte slots, in the order A, F, B, C, D, E, H, L.
    pub slots: Seq<u8>,
    /// The stack pointer.
    pub sp: u16,
    /// The program counter.
    pub pc: u16,
}

impl RegisterState {
    /// A register file has exactly eight slots.
    pub open spec fn wf(self) -> bool {
        self.slots.len() == NUM_GPR
    }

    /// The register file of a machine that has just been switched on.
    pub open spec fn reset() -> RegisterState {
        RegisterState { slots: Seq::new(NUM_GPR as nat, |i: int| 0u8), sp: 0, pc: 0 }
    }

    /// What a slot holds.
    pub open spec fn byte(self, register: ByteRegister) -> u8 {
        self.slots[register.index()]
    }

    /// The same register file with one slot changed.
    pub open spec fn with_byte(self, register: ByteRegister, value: u8) -> RegisterState {
        RegisterState { slots: self.slots.update(register.index(), value), ..self }
    }

    /// What a pair holds: its first slot is the upper byte.
    pub open spec fn word(self, pair: WordRegister) -> u16 {
        word(self.byte(pair.high()), self.byte(pair.low()))
    }

    /// The same register file with a pair changed.
    pub open spec fn with_word(self, pair: WordRegister, value: u16) -> RegisterState {
        self.with_byte(pair.high(), high_byte(value)).with_byte(pair.low(), low_byte(value))
    }

    /// The same register file with another stack pointer.
    pub open spec fn with_sp(self, value: u16) -> RegisterState {
        RegisterState { sp: value, ..self }
    }

    /// The same register file with another program counter.
    pub open spec fn with_pc(self, value: u16) -> RegisterState {
        RegisterState { pc: value, ..self }
    }

    /// Whether any bit of `flag` is set in F.
    pub open spec fn flag(self, flag: u8) -> bool {
        self.byte(ByteRegister(REG_F)) & flag != 0
    }

    /// The same register file with the bits of `flag` switched in F.
    pub open spec fn with_flag(self, flag: u8, on: bool) -> RegisterState {
        self.with_byte(ByteRegister(REG_F), set_bits(self.byte(ByteRegister(REG_F)), flag, on))
    }

    /// Whether F uses only its four flag bits.
    pub open spec fn flags_clean(self) -> bool {
        self.byte(ByteRegister(REG_F)) & 0x0F == 0
    }

    /// Whether the register file has its eight slots and the lower nibble
    /// of F is zero.
    pub open spec fn tidy(self) -> bool {
        self.wf() && self.flags_clean()
    }

    /// The register file after a slot was copied into another.
    pub open spec fn after_transfer(self, from: ByteRegister, to: ByteRegister) -> RegisterState {
        self.with_byte(to, self.byte(from))
    }

    /// The register file after one was added to a slot: the flags Zero,
    /// Subtract and Half-Carry are set from the slot's old value, then the
    /// slot goes up by one.
    pub open spec fn after_increment(self, register: ByteRegister) -> RegisterState {
        let previous = self.byte(register);
        let flagged = self.with_flag(ZERO_FLAG, wrap8(previous + 1) == 0).with_flag(
            SUBTRACT_FLAG,
            false,
        ).with_flag(HALF_CARRY_FLAG, half_carry_up(previous));
        flagged.with_byte(register, wrap8(flagged.byte(register) + 1))
    }

    /// The register file after one was taken from a slot: the flags Zero,
    /// Subtract and Half-Carry are set from the slot's old value, then the
    /// slot gets that value less one.
    pub open spec fn after_decrement(self, register: ByteRegister) -> RegisterState {
        let previous = self.byte(register);
        self.with_flag(ZERO_FLAG, wrap8(previous - 1) == 0).with_flag(SUBTRACT_FLAG, true).with_flag(
            HALF_CARRY_FLAG,
            half_carry_down(previous),
        ).with_byte(register, wrap8(previous - 1))
    }

    /// The register file after `a - b` was computed: only the flags change.
    pub open spec fn after_subtract(self, a: u8, b: u8) -> RegisterState {
        self.with_flag(SUBTRACT_FLAG, true).with_flag(HALF_CARRY_FLAG, (a & 0xF) < (b & 0xF)).with_flag(
            CARRY_FLAG,
            a < b,
        ).with_flag(ZERO_FLAG, wrap8(a - b) == 0)
    }

    /// The register file after `value` was shifted left: only the flags
    /// Zero and Carry change.
    pub open spec fn after_shift_left(self, value: u8, carry_in: bool) -> RegisterState {
        self.with_flag(ZERO_FLAG, shift_in(value, carry_in) == 0).with_flag(
            CARRY_FLAG,
            value & 0x80 != 0,
        )
    }
}

/// The register file.
pub struct Registers {
    value: [u8; 8],
    sp: u16,
    pc: u16,
}

impl View for Registers {
    type V = RegisterState;

    closed spec fn view(&self) -> RegisterState {
        RegisterState { slots: self.value@, sp: self.sp, pc: self.pc }
    }
}

impl Registers {
    /// Every register file has its eight slots.
    pub proof fn lemma_wf(&self)
        ensures
            self@.wf(),
    {
    }

    /// A register file with every slot, the stack pointer and the program
    /// counter at zero.
    pub fn new() -> (registers: Registers)
        ensures
            registers@ == RegisterState::reset(),
    {
        let registers = Registers { value: [0u8; 8], sp: 0, pc: 0 };
        assert(registers@.slots =~= RegisterState::reset().slots);
        registers
    }

    /// Reads the stack pointer.
    pub fn get_stack_pointer(&self) -> (value: u16)
        ensures
            value == self@.sp,
    {
        self.sp
    }

    /// Sets the stack pointer. Nothing else changes.
    pub fn set_stack_pointer(&mut self, value: u16)
        ensures
            final(self)@ == old(self)@.with_sp(value),
    {
        self.sp = value;
    }

    /// Moves the stack pointer up by `value`, modulo 2^16.
    pub fn increment_stack_pointer(&mut self, value: i16)
        ensures
            final(self)@ == old(self)@.with_sp(wrap16(old(self)@.sp + value)),
    {
        self.sp = offset_by(self.sp, value);
    }

    /// Moves the stack pointer down by `value`, modulo 2^16.
    pub fn decrement_stack_pointer(&mut self, value: i16)
        ensures
            final(self)@ == old(self)@.with_sp(wrap16(old(self)@.sp - value)),
    {
        self.sp = offset_back(self.sp, value);
    }

    /// Reads the program counter.
    pub fn get_program_counter(&self) -> (value: u16)
        ensures
            value == self@.pc,
    {
        self.pc
    }

    /// Sets the program counter. Nothing else changes.
    pub fn set_program_counter(&mut self, value: u16)
        ensures
            final(self)@ == old(self)@.with_pc(value),
    {
        self.pc = value;
    }

    /// Moves the program counter by `value`, modulo 2^16.
    pub fn increment_program_counter(&mut self, value: i16)
        ensures
            final(self)@ == old(self)@.with_pc(wrap16(old(self)@.pc + value)),
    {
        self.pc = offset_by(self.pc, value);
    }

    /// Tells whether any bit of `flag` is set in F.
    pub fn get_flag(&self, flag: u8) -> (on: bool)
        ensures
            on == self@.flag(flag),
    {
        let f: u8 = self.read_byte(ByteRegister(REG_F));

        (f & flag) != 0
    }

    /// Switches the bits of `flag` in F and leaves every other bit alone:
    /// the flag then reads as it was set, and every bit of F outside `flag`
    /// is as it was. So a flag of the upper nibble leaves the lower nibble
    /// as it was.
    pub fn set_flag(&mut self, flag: u8, on: bool)
        ensures
            final(self)@ == old(self)@.with_flag(flag, on),
            flag != 0 ==> final(self)@.flag(flag) == on,
            forall|other: u8|
                flag & other == 0 ==> #[trigger] (final(self)@.byte(ByteRegister(REG_F)) & other)
                    == old(self)@.byte(ByteRegister(REG_F)) & other,
    {
        proof {
            self.lemma_wf();
            let before = self@.byte(ByteRegister(REG_F));
            lemma_set_bits(before, flag, 0, on);
            assert forall|other: u8| flag & other == 0 implies #[trigger] (set_bits(
                before,
                flag,
                on,
            ) & other) == before & other by {
                lemma_set_bits(before, flag, other, on);
            }
        }
        let mut f: u8 = self.read_byte(ByteRegister(REG_F));

        if on {
            f |= flag;
        } else {
            f &= !flag;
        }

        self.write_byte(ByteRegister(REG_F), f);
    }

    /// Adds one to a slot, wrapping at 255, and sets Zero, Subtract and
    /// Half-Carry; Carry stays as it was.
    pub fn increment_byte(&mut self, register: ByteRegister)
        requires
            register.wf(),
        ensures
            final(self)@ == old(self)@.after_increment(register),
            register != ByteRegister(REG_F) ==> {
                &&& final(self)@.byte(register) == wrap8(old(self)@.byte(register) + 1)
                &&& final(self)@.flag(ZERO_FLAG) == (wrap8(old(self)@.byte(register) + 1) == 0)
                &&& final(self)@.flag(SUBTRACT_FLAG) == false
                &&& final(self)@.flag(HALF_CARRY_FLAG) == half_carry_up(old(self)@.byte(register))
                &&& final(self)@.flag(CARRY_FLAG) == old(self)@.flag(CARRY_FLAG)
            },
    {
        let previous: u8 = self.read_byte(register);
        proof {
            lemma_carry_from_nibble(previous);
            self.lemma_wf();
            if register != ByteRegister(REG_F) {
                lemma_increment_flags(self@, register);
            }
        }

        self.set_flag(ZERO_FLAG, previous.wrapping_add(1) == 0);
        self.set_flag(SUBTRACT_FLAG, false);
        self.set_flag(HALF_CARRY_FLAG, ((previous & 0xF) + 1) & 0x10 != 0);

        let current: u8 = self.read_byte(register);
        self.write_byte(register, current.wrapping_add(1));
    }

    /// Takes one from a slot, wrapping at zero, and sets Zero, Subtract and
    /// Half-Carry; Carry stays as it was.
    pub fn decrement_byte(&mut self, register: ByteRegister)
        requires
            register.wf(),
        ensures
            final(self)@ == old(self)@.after_decrement(register),
            register != ByteRegister(REG_F) ==> {
                &&& final(self)@.byte(register) == wrap8(old(self)@.byte(register) - 1)
                &&& final(self)@.flag(ZERO_FLAG) == (wrap8(old(self)@.byte(register) - 1) == 0)
                &&& final(self)@.flag(SUBTRACT_FLAG) == true
                &&& final(self)@.flag(HALF_CARRY_FLAG) == half_carry_down(
                    old(self)@.byte(register),
                )
                &&& final(self)@.flag(CARRY_FLAG) == old(self)@.flag(CARRY_FLAG)
            },
    {
        let value: u8 = self.read_byte(register);
        proof {
            self.lemma_wf();
            if register != ByteRegister(REG_F) {
                lemma_decrement_flags(self@, register);
            }
        }

        self.set_flag(ZERO_FLAG, value.wrapping_sub(1) == 0);
        self.set_flag(SUBTRACT_FLAG, true);
        self.set_flag(HALF_CARRY_FLAG, ((value & 0xF).wrapping_sub(1)) & 0x10 != 0);

        self.write_byte(register, value.wrapping_sub(1));
    }

    /// Adds one to a pair, wrapping at 0xFFFF. No flag changes.
    pub fn increment_word(&mut self, register: WordRegister)
        requires
            register.wf(),
        ensures
            final(self)@ == old(self)@.with_word(register, wrap16(old(self)@.word(register) + 1)),
    {
        let value: u16 = self.read_word(register);
        self.write_word(register, value.wrapping_add(1));
    }

    /// Takes one from a pair, wrapping at zero. No flag changes.
    pub fn decrement_word(&mut self, register: WordRegister)
        requires
            register.wf(),
        ensures
            final(self)@ == old(self)@.with_word(register, wrap16(old(self)@.word(register) - 1)),
    {
        let value: u16 = self.read_word(register);
        self.write_word(register, value.wrapping_sub(1));
    }

    /// Copies one slot into another.
    pub fn transfer_byte(&mut self, from: ByteRegister, to: ByteRegister)
        requires
            from.wf(),
            to.wf(),
        ensures
            final(self)@ == old(self)@.after_transfer(from, to),
    {
        let value: u8 = self.read_byte(from);
        self.write_byte(to, value);
    }

    /// Computes `a - b`, wrapping at zero, and sets all four flags: Subtract
    /// is set, Half-Carry tells whether the lower nibble borrowed, Carry
    /// whether the byte did, and Zero whether the result is zero.
    pub fn subtract(&mut self, a: u8, b: u8) -> (result: u8)
        ensures
            result == wrap8(a - b),
            final(self)@ == old(self)@.after_subtract(a, b),
            final(self)@.flag(SUBTRACT_FLAG) == true,
            final(self)@.flag(HALF_CARRY_FLAG) == ((a & 0xF) < (b & 0xF)),
            final(self)@.flag(CARRY_FLAG) == (a < b),
            final(self)@.flag(ZERO_FLAG) == (result == 0),
    {
        proof {
            self.lemma_wf();
            lemma_subtract_flags(self@, a, b);
        }
        let result: u8 = a.wrapping_sub(b);

        self.set_flag(SUBTRACT_FLAG, true);
        self.set_flag(HALF_CARRY_FLAG, (a & 0xF) < (b & 0xF));
        self.set_flag(CARRY_FLAG, a < b);
        self.set_flag(ZERO_FLAG, result == 0);

        result
    }

    /// Shifts `value` left by one place with `lsb` as the new lowest bit.
    /// Carry takes the bit that was shifted out, and Zero tells whether the
    /// result is zero.
    pub fn shift_left(&mut self, value: u8, lsb: bool) -> (result: u8)
        ensures
            result == shift_in(value, lsb),
            final(self)@ == old(self)@.after_shift_left(value, lsb),
            final(self)@.flag(CARRY_FLAG) == (value & 0x80 != 0),
            final(self)@.flag(ZERO_FLAG) == (result == 0),
    {
        proof {
            self.lemma_wf();
            lemma_shift_left_flags(self@, value, lsb);
        }
        let carry: bool = (value & 0x80) != 0;
        let mut result: u8 = value << 1;

        if lsb {
            result |= 1;
        }

        self.set_flag(ZERO_FLAG, result == 0);
        self.set_flag(CARRY_FLAG, carry);

        result
    }

    /// Reads a slot.
    pub fn read_byte(&self, register: ByteRegister) -> (value: u8)
        requires
            register.wf(),
        ensures
            value == self@.byte(register),
    {
        self.value[register.0]
    }

    /// Reads a pair: the first slot is the upper byte.
    pub fn read_word(&self, address: WordRegister) -> (value: u16)
        requires
            address.wf(),
        ensures
            value == self@.word(address),
    {
        join(self.read_byte(address.high()), self.read_byte(address.low()))
    }

    /// Writes a slot. Nothing else changes.
    pub fn write_byte(&mut self, register: ByteRegister, value: u8)
        requires
            register.wf(),
        ensures
            final(self)@ == old(self)@.with_byte(register, value),
    {
        self.value[register.0] = value;
    }

    /// Writes a pair: the upper byte goes to the first slot, the lower byte
    /// to the second.
    pub fn write_word(&mut self, address: WordRegister, value: u16)
        requires
            address.wf(),
        ensures
            final(self)@ == old(self)@.with_word(address, value),
            final(self)@.word(address) == value,
            final(self)@.byte(address.high()) == value >> 8,
            final(self)@.byte(address.low()) == value & 0xFF,
    {
        proof {
            self.lemma_wf();
            lemma_word_round_trip(self@, address, value);
        }
        let (high, low) = split(value);
        self.write_byte(address.high(), high);
        self.write_byte(address.low(), low);
    }
}

/// Switching the bits of one mask sets or clears exactly those bits, and
/// leaves alone every bit that the mask does not hold.
pub proof fn lemma_set_bits(byte: u8, mask: u8, other: u8, on: bool)
    ensures
        set_bits(byte, mask, true) & mask == mask,
        set_bits(byte, mask, false) & mask == 0,
        mask & other == 0 ==> set_bits(byte, mask, on) & other == byte & other,
{
    assert((byte | mask) & mask == mask && (byte & !mask) & mask == 0) by (bit_vector);
    assert(mask & other == 0 ==> (byte | mask) & other == byte & other && (byte & !mask) & other
        == byte & other) by (bit_vector);
}

/// Writing a word to a pair and reading the pair gives the word back; the
/// pair's first slot then holds the word's upper byte and its second slot
/// the lower byte.
pub proof fn lemma_word_round_trip(state: RegisterState, pair: WordRegister, value: u16)
    requires
        state.wf(),
        pair.wf(),
    ensures
        state.with_word(pair, value).word(pair) == value,
        state.with_word(pair, value).byte(pair.high()) == value >> 8,
        state.with_word(pair, value).byte(pair.low()) == value & 0xFF,
{
    lemma_halves_as_bits(value);
}

/// What the four flags are after one was added to a slot other than F.
pub proof fn lemma_increment_flags(state: RegisterState, register: ByteRegister)
    requires
        state.wf(),
        register.wf(),
        register != ByteRegister(REG_F),
    ensures
        state.after_increment(register).byte(register) == wrap8(state.byte(register) + 1),
        state.after_increment(register).flag(ZERO_FLAG) == (wrap8(state.byte(register) + 1) == 0),
        state.after_increment(register).flag(SUBTRACT_FLAG) == false,
        state.after_increment(register).flag(HALF_CARRY_FLAG) == half_carry_up(
            state.byte(register),
        ),
        state.after_increment(register).flag(CARRY_FLAG) == state.flag(CARRY_FLAG),
        state.after_increment(register).byte(ByteRegister(REG_F)) & 0x0F == state.byte(
            ByteRegister(REG_F),
        ) & 0x0F,
{
    let previous = state.byte(register);
    lemma_three_flags(
        state.byte(ByteRegister(REG_F)),
        ZERO_FLAG,
        wrap8(previous + 1) == 0,
        SUBTRACT_FLAG,
        false,
        HALF_CARRY_FLAG,
        half_carry_up(previous),
        CARRY_FLAG,
    );
}

/// What the four flags are after one was taken from a slot other than F.
pub proof fn lemma_decrement_flags(state: RegisterState, register: ByteRegister)
    requires
        state.wf(),
        register.wf(),
        register != ByteRegister(REG_F),
    ensures
        state.after_decrement(register).byte(register) == wrap8(state.byte(register) - 1),
        state.after_decrement(register).flag(ZERO_FLAG) == (wrap8(state.byte(register) - 1) == 0),
        state.after_decrement(register).flag(SUBTRACT_FLAG) == true,
        state.after_decrement(register).flag(HALF_CARRY_FLAG) == half_carry_down(
            state.byte(register),
        ),
        state.after_decrement(register).flag(CARRY_FLAG) == state.flag(CARRY_FLAG),
        state.after_decrement(register).byte(ByteRegister(REG_F)) & 0x0F == state.byte(
            ByteRegister(REG_F),
        ) & 0x0F,
{
    let previous = state.byte(register);
    lemma_three_flags(
        state.byte(ByteRegister(REG_F)),
        ZERO_FLAG,
        wrap8(previous - 1) == 0,
        SUBTRACT_FLAG,
        true,
        HALF_CARRY_FLAG,
        half_carry_down(previous),
        CARRY_FLAG,
    );
}

/// What the four flags are after a subtraction: Subtract is set, Half-Carry
/// tells whether the lower nibble of `a` is below that of `b`, Carry whether
/// `a` is below `b`, and Zero whether the two are equal. Nothing but the
/// four flag bits of F changes.
pub proof fn lemma_subtract_flags(state: RegisterState, a: u8, b: u8)
    requires
        state.wf(),
    ensures
        state.after_subtract(a, b).flag(SUBTRACT_FLAG) == true,
        state.after_subtract(a, b).flag(HALF_CARRY_FLAG) == ((a & 0xF) < (b & 0xF)),
        state.after_subtract(a, b).flag(CARRY_FLAG) == (a < b),
        state.after_subtract(a, b).flag(ZERO_FLAG) == (wrap8(a - b) == 0),
        (wrap8(a - b) == 0) == (a == b),
        state.after_subtract(a, b).byte(ByteRegister(REG_F)) & 0x0F == state.byte(
            ByteRegister(REG_F),
        ) & 0x0F,
        state.after_subtract(a, b) == state.with_byte(
            ByteRegister(REG_F),
            state.after_subtract(a, b).byte(ByteRegister(REG_F)),
        ),
{
    lemma_four_flags(
        state.byte(ByteRegister(REG_F)),
        SUBTRACT_FLAG,
        true,
        HALF_CARRY_FLAG,
        (a & 0xF) < (b & 0xF),
        CARRY_FLAG,
        a < b,
        ZERO_FLAG,
        wrap8(a - b) == 0,
    );
    assert(state.after_subtract(a, b).slots =~= state.with_byte(
        ByteRegister(REG_F),
        state.after_subtract(a, b).byte(ByteRegister(REG_F)),
    ).slots);
}

/// What the flags are after a shift to the left: Carry holds the bit that
/// was shifted out, Zero tells whether the result is zero, and Subtract and
/// Half-Carry stay as they were. Nothing but F changes.
pub proof fn lemma_shift_left_flags(state: RegisterState, value: u8, carry_in: bool)
    requires
        state.wf(),
    ensures
        state.after_shift_left(value, carry_in).flag(CARRY_FLAG) == (value & 0x80 != 0),
        state.after_shift_left(value, carry_in).flag(ZERO_FLAG) == (shift_in(value, carry_in)
            == 0),
        state.after_shift_left(value, carry_in).flag(SUBTRACT_FLAG) == state.flag(SUBTRACT_FLAG),
        state.after_shift_left(value, carry_in).flag(HALF_CARRY_FLAG) == state.flag(
            HALF_CARRY_FLAG,
        ),
        state.after_shift_left(value, carry_in).byte(ByteRegister(REG_F)) & 0x0F == state.byte(
            ByteRegister(REG_F),
        ) & 0x0F,
        state.after_shift_left(value, carry_in) == state.with_byte(
            ByteRegister(REG_F),
            state.after_shift_left(value, carry_in).byte(ByteRegister(REG_F)),
        ),
{
    lemma_two_flags(
        state.byte(ByteRegister(REG_F)),
        ZERO_FLAG,
        shift_in(value, carry_in) == 0,
        CARRY_FLAG,
        value & 0x80 != 0,
        SUBTRACT_FLAG,
        HALF_CARRY_FLAG,
    );
    assert(state.after_shift_left(value, carry_in).slots =~= state.with_byte(
        ByteRegister(REG_F),
        state.after_shift_left(value, carry_in).byte(ByteRegister(REG_F)),
    ).slots);
}

/// The lower nibble of F is zero in a register file that was just made,
/// and stays zero whatever is done to the register file, as long as no byte
/// is written to F itself and no flag is switched that lies in that
/// nibble.
pub proof fn lemma_tidy_is_kept()
    ensures
        RegisterState::reset().tidy(),
        ZERO_FLAG & 0x0F == 0,
        SUBTRACT_FLAG & 0x0F == 0,
        HALF_CARRY_FLAG & 0x0F == 0,
        CARRY_FLAG & 0x0F == 0,
        forall|s: RegisterState, value: u16| s.tidy() ==> #[trigger] s.with_pc(value).tidy(),
        forall|s: RegisterState, value: u16| s.tidy() ==> #[trigger] s.with_sp(value).tidy(),
        forall|s: RegisterState, register: ByteRegister, value: u8|
            s.tidy() && register.wf() && register != ByteRegister(REG_F) ==> #[trigger] s.with_byte(
                register,
                value,
            ).tidy(),
        forall|s: RegisterState, pair: WordRegister, value: u16|
            s.tidy() && pair.wf() && pair != WordRegister(REG_AF) ==> #[trigger] s.with_word(
                pair,
                value,
            ).tidy(),
        forall|s: RegisterState, flag: u8, on: bool|
            s.tidy() && flag & 0x0F == 0 ==> #[trigger] s.with_flag(flag, on).tidy(),
        forall|s: RegisterState, from: ByteRegister, to: ByteRegister|
            s.tidy() && to.wf() && to != ByteRegister(REG_F) ==> #[trigger] s.after_transfer(
                from,
                to,
            ).tidy(),
        forall|s: RegisterState, register: ByteRegister|
            s.tidy() && register.wf() && register != ByteRegister(REG_F)
                ==> #[trigger] s.after_increment(register).tidy(),
        forall|s: RegisterState, register: ByteRegister|
            s.tidy() && register.wf() && register != ByteRegister(REG_F)
                ==> #[trigger] s.after_decrement(register).tidy(),
        forall|s: RegisterState, a: u8, b: u8| s.tidy() ==> #[trigger] s.after_subtract(a, b).tidy(),
        forall|s: RegisterState, value: u8, carry_in: bool|
            s.tidy() ==> #[trigger] s.after_shift_left(value, carry_in).tidy(),
{
    assert(0u8 & 0x0F == 0 && 0x80u8 & 0x0F == 0 && 0x40u8 & 0x0F == 0 && 0x20u8 & 0x0F == 0
        && 0x10u8 & 0x0F == 0) by (bit_vector);
    assert forall|s: RegisterState, flag: u8, on: bool|
        s.tidy() && flag & 0x0F == 0 implies #[trigger] s.with_flag(flag, on).tidy() by {
        lemma_set_bits(s.byte(ByteRegister(REG_F)), flag, 0x0F, on);
    }
    assert forall|s: RegisterState, register: ByteRegister|
        s.tidy() && register.wf() && register != ByteRegister(REG_F)
            implies #[trigger] s.after_increment(register).tidy() by {
        lemma_increment_flags(s, register);
    }
    assert forall|s: RegisterState, register: ByteRegister|
        s.tidy() && register.wf() && register != ByteRegister(REG_F)
            implies #[trigger] s.after_decrement(register).tidy() by {
        lemma_decrement_flags(s, register);
    }
    assert forall|s: RegisterState, a: u8, b: u8| s.tidy() implies #[trigger] s.after_subtract(
        a,
        b,
    ).tidy() by {
        lemma_subtract_flags(s, a, b);
    }
    assert forall|s: RegisterState, value: u8, carry_in: bool|
        s.tidy() implies #[trigger] s.after_shift_left(value, carry_in).tidy() by {
        lemma_shift_left_flags(s, value, carry_in);
    }
}

/// Adding one to a byte carries out of the lower nibble exactly when that
/// nibble is full.
pub proof fn lemma_carry_from_nibble(byte: u8)
    ensures
        half_carry_up(byte) == (byte & 0xF == 0xF),
        (byte & 0xF) + 1 <= 0x10,
{
    let nibble: u8 = byte & 0xF;
    assert(nibble <= 15) by (bit_vector)
        requires
            nibble == byte & 0xF,
    ;
    let more: u8 = (nibble + 1) as u8;
    assert(more <= 16 ==> (more & 0x10 != 0) == (more == 16)) by (bit_vector);
}

/// Taking one from a byte borrows into the lower nibble exactly when that
/// nibble is zero.
pub proof fn lemma_borrow_from_nibble(byte: u8)
    ensures
        half_carry_down(byte) == (byte & 0xF == 0),
{
    let nibble: u8 = byte & 0xF;
    assert(nibble <= 15) by (bit_vector)
        requires
            nibble == byte & 0xF,
    ;
    if nibble == 0 {
        assert(wrap8(nibble - 1) == 0xFF);
        assert(0xFFu8 & 0x10 != 0) by (bit_vector);
    } else {
        let less: u8 = (nibble - 1) as u8;
        assert(wrap8(nibble - 1) == less);
        assert(less < 15 ==> less & 0x10 == 0) by (bit_vector);
    }
}

/// Two flags switched one after the other: each of the two ends as it was
/// switched, and the other two flags and the lower nibble stay as they
/// were.
proof fn lemma_two_flags(f0: u8, m1: u8, on1: bool, m2: u8, on2: bool, m3: u8, m4: u8)
    by (bit_vector)
    requires
        m1 == 0x80 || m1 == 0x40 || m1 == 0x20 || m1 == 0x10,
        m2 == 0x80 || m2 == 0x40 || m2 == 0x20 || m2 == 0x10,
        m3 == 0x80 || m3 == 0x40 || m3 == 0x20 || m3 == 0x10,
        m4 == 0x80 || m4 == 0x40 || m4 == 0x20 || m4 == 0x10,
        m1 != m2 && m1 != m3 && m1 != m4 && m2 != m3 && m2 != m4 && m3 != m4,
    ensures
        (set_bits(set_bits(f0, m1, on1), m2, on2) & m1 != 0) == on1,
        (set_bits(set_bits(f0, m1, on1), m2, on2) & m2 != 0) == on2,
        set_bits(set_bits(f0, m1, on1), m2, on2) & m3 == f0 & m3,
        set_bits(set_bits(f0, m1, on1), m2, on2) & m4 == f0 & m4,
        set_bits(set_bits(f0, m1, on1), m2, on2) & 0x0F == f0 & 0x0F,
{
}

/// Four flags switched one after the other: each ends as it was switched,
/// and the lower nibble stays as it was.
proof fn lemma_four_flags(
    f0: u8,
    m1: u8,
    on1: bool,
    m2: u8,
    on2: bool,
    m3: u8,
    on3: bool,
    m4: u8,
    on4: bool,
)
    by (bit_vector)
    requires
        m1 == 0x80 || m1 == 0x40 || m1 == 0x20 || m1 == 0x10,
        m2 == 0x80 || m2 == 0x40 || m2 == 0x20 || m2 == 0x10,
        m3 == 0x80 || m3 == 0x40 || m3 == 0x20 || m3 == 0x10,
        m4 == 0x80 || m4 == 0x40 || m4 == 0x20 || m4 == 0x10,
        m1 != m2 && m1 != m3 && m1 != m4 && m2 != m3 && m2 != m4 && m3 != m4,
    ensures
        (set_bits(set_bits(set_bits(set_bits(f0, m1, on1), m2, on2), m3, on3), m4, on4) & m1 != 0)
            == on1,
        (set_bits(set_bits(set_bits(set_bits(f0, m1, on1), m2, on2), m3, on3), m4, on4) & m2 != 0)
            == on2,
        (set_bits(set_bits(set_bits(set_bits(f0, m1, on1), m2, on2), m3, on3), m4, on4) & m3 != 0)
            == on3,
        (set_bits(set_bits(set_bits(set_bits(f0, m1, on1), m2, on2), m3, on3), m4, on4) & m4 != 0)
            == on4,
        set_bits(set_bits(set_bits(set_bits(f0, m1, on1), m2, on2), m3, on3), m4, on4) & 0x0F
            == f0 & 0x0F,
{
}

/// Three flags switched one after the other: each of the three ends as it
/// was switched, and the fourth flag and the lower nibble stay as they were.
proof fn lemma_three_flags(f0: u8, m1: u8, on1: bool, m2: u8, on2: bool, m3: u8, on3: bool, m4: u8)
    by (bit_vector)
    requires
        m1 == 0x80 || m1 == 0x40 || m1 == 0x20 || m1 == 0x10,
        m2 == 0x80 || m2 == 0x40 || m2 == 0x20 || m2 == 0x10,
        m3 == 0x80 || m3 == 0x40 || m3 == 0x20 || m3 == 0x10,
        m4 == 0x80 || m4 == 0x40 || m4 == 0x20 || m4 == 0x10,
        m1 != m2 && m1 != m3 && m1 != m4 && m2 != m3 && m2 != m4 && m3 != m4,
    ensures
        (set_bits(set_bits(set_bits(f0, m1, on1), m2, on2), m3, on3) & m1 != 0) == on1,
        (set_bits(set_bits(set_bits(f0, m1, on1), m2, on2), m3, on3) & m2 != 0) == on2,
        (set_bits(set_bits(set_bits(f0, m1, on1), m2, on2), m3, on3) & m3 != 0) == on3,
        set_bits(set_bits(set_bits(f0, m1, on1), m2, on2), m3, on3) & m4 == f0 & m4,
        set_bits(set_bits(set_bits(f0, m1, on1), m2, on2), m3, on3) & 0x0F == f0 & 0x0F,
{
}

} // verus!
