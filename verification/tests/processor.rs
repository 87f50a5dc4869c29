use gameboy::cpu::registers::{
    ByteRegister, Registers, WordRegister, CARRY_FLAG, HALF_CARRY_FLAG, REG_A, REG_B, REG_BC,
    REG_C, REG_D, REG_DE, REG_E, REG_F, REG_H, REG_HL, REG_L, SUBTRACT_FLAG, ZERO_FLAG,
};
use gameboy::fault::Fault;
use gameboy::memory::{Memory, MemoryMap, RandomAccessMemory};
use gameboy::processor::instruction::Instruction;
use gameboy::processor::opcode::{Opcode, SpecialOpcode};
use gameboy::processor::{Processor, Trace};

fn flat(program: &[u8]) -> Processor<RandomAccessMemory> {
    let mut memory = RandomAccessMemory::new(0x1_0000);
    for (place, byte) in program.iter().enumerate() {
        memory.write_byte(place as u16, *byte).unwrap();
    }
    Processor::new(memory)
}

fn routed(boot: &[u8], game: &[(usize, u8)]) -> Processor<MemoryMap> {
    let mut bootrom = vec![0u8; 0xFF];
    bootrom[..boot.len()].copy_from_slice(boot);
    let mut gamerom = vec![0u8; 0x4000];
    for &(place, byte) in game {
        gamerom[place] = byte;
    }
    Processor::new(MemoryMap::new(bootrom.into_boxed_slice(), gamerom.into_boxed_slice()))
}

fn slots(registers: &Registers) -> [u8; 8] {
    let mut all = [0u8; 8];
    for (place, slot) in all.iter_mut().enumerate() {
        *slot = registers.read_byte(ByteRegister(place));
    }
    all
}

fn byte(processor: &Processor<RandomAccessMemory>, register: usize) -> u8 {
    processor.registers().read_byte(ByteRegister(register))
}

fn pc(processor: &Processor<RandomAccessMemory>) -> u16 {
    processor.registers().get_program_counter()
}

#[test]
fn a_new_processor_has_all_registers_at_zero() {
    let processor = flat(&[]);
    assert_eq!(slots(processor.registers()), [0; 8]);
    assert_eq!(processor.registers().get_stack_pointer(), 0);
    assert_eq!(processor.registers().get_program_counter(), 0);
    assert_eq!(processor.memory().read_byte(0x1234), Ok(0));
}

#[test]
fn no_op_only_moves_the_program_counter() {
    let mut processor = flat(&[0x00]);
    processor.registers_mut().write_word(WordRegister(REG_BC), 0x1234);
    processor.registers_mut().set_stack_pointer(0x8000);
    assert_eq!(processor.step(), Ok(()));
    assert_eq!(pc(&processor), 1);
    assert_eq!(slots(processor.registers()), [0, 0, 0x12, 0x34, 0, 0, 0, 0]);
    assert_eq!(processor.registers().get_stack_pointer(), 0x8000);
}

#[test]
fn the_program_counter_wraps_past_the_last_address() {
    let mut processor = flat(&[]);
    processor.registers_mut().set_program_counter(0xFFFF);
    assert_eq!(processor.step(), Ok(()));
    assert_eq!(pc(&processor), 0x0000);
}

#[test]
fn jump_takes_the_word_after_the_opcode() {
    let mut processor = flat(&[0xC3, 0x34, 0x12]);
    assert_eq!(processor.step(), Ok(()));
    assert_eq!(pc(&processor), 0x1234);
}

#[test]
fn conditional_jumps_follow_their_flag() {
    let cases = [
        (0xC2u8, ZERO_FLAG, false),
        (0xCA, ZERO_FLAG, true),
        (0xD2, CARRY_FLAG, false),
        (0xDA, CARRY_FLAG, true),
    ];
    for (opcode, flag, wanted) in cases {
        for set in [false, true] {
            let mut processor = flat(&[opcode, 0x00, 0x40]);
            processor.registers_mut().set_flag(flag, set);
            assert_eq!(processor.step(), Ok(()));
            let expected = if set == wanted { 0x4000 } else { 0x0003 };
            assert_eq!(pc(&processor), expected);
        }
    }
}

#[test]
fn relative_jump_counts_from_behind_its_operand() {
    let mut forward = flat(&[0x18, 0x05]);
    assert_eq!(forward.step(), Ok(()));
    assert_eq!(pc(&forward), 0x0007);

    let mut backward = flat(&[0x18, 0xFE]);
    assert_eq!(backward.step(), Ok(()));
    assert_eq!(pc(&backward), 0x0000);

    let mut below_zero = flat(&[0x18, 0x80]);
    assert_eq!(below_zero.step(), Ok(()));
    assert_eq!(pc(&below_zero), 0xFF82);

    let mut farthest = flat(&[0x18, 0x7F]);
    assert_eq!(farthest.step(), Ok(()));
    assert_eq!(pc(&farthest), 0x0081);
}

#[test]
fn conditional_relative_jumps_follow_their_flag() {
    let cases = [
        (0x20u8, ZERO_FLAG, false),
        (0x28, ZERO_FLAG, true),
        (0x30, CARRY_FLAG, false),
        (0x38, CARRY_FLAG, true),
    ];
    for (opcode, flag, wanted) in cases {
        for set in [false, true] {
            let mut processor = flat(&[opcode, 0x10]);
            processor.registers_mut().set_flag(flag, set);
            assert_eq!(processor.step(), Ok(()));
            let expected = if set == wanted { 0x0012 } else { 0x0002 };
            assert_eq!(pc(&processor), expected);
        }
    }
}

#[test]
fn call_stores_the_return_address_below_the_stack_pointer() {
    let mut processor = flat(&[0xCD, 0x00, 0x02]);
    processor.registers_mut().set_stack_pointer(0xFFFE);
    assert_eq!(processor.step(), Ok(()));
    assert_eq!(pc(&processor), 0x0200);
    assert_eq!(processor.registers().get_stack_pointer(), 0xFFFC);
    assert_eq!(processor.memory().read_byte(0xFFFD), Ok(0x03));
    assert_eq!(processor.memory().read_byte(0xFFFE), Ok(0x00));
    assert_eq!(processor.memory().read_byte(0xFFFC), Ok(0x00));
}

#[test]
fn call_then_return_comes_back_behind_the_call() {
    let mut program = vec![0u8; 0x300];
    program[0x10] = 0xCD;
    program[0x11] = 0x00;
    program[0x12] = 0x02;
    program[0x200] = 0xC9;
    let mut processor = flat(&program);
    processor.registers_mut().set_program_counter(0x0010);
    processor.registers_mut().set_stack_pointer(0xD000);
    assert_eq!(processor.step(), Ok(()));
    assert_eq!(pc(&processor), 0x0200);
    assert_eq!(processor.step(), Ok(()));
    assert_eq!(pc(&processor), 0x0013);
    assert_eq!(processor.registers().get_stack_pointer(), 0xD000);
}

#[test]
fn return_pops_the_program_counter() {
    let mut processor = flat(&[0xC9]);
    processor.registers_mut().set_stack_pointer(0x8000);
    processor.memory_mut().write_word(0x8001, 0xBEEF).unwrap();
    assert_eq!(processor.step(), Ok(()));
    assert_eq!(pc(&processor), 0xBEEF);
    assert_eq!(processor.registers().get_stack_pointer(), 0x8002);
}

#[test]
fn loads_between_slots() {
    let cases = [(0x4Fu8, REG_A, REG_C), (0x57, REG_A, REG_D), (0x67, REG_A, REG_H), (0x7B, REG_E, REG_A)];
    for (opcode, from, to) in cases {
        let mut processor = flat(&[opcode]);
        processor.registers_mut().write_byte(ByteRegister(from), 0x9C);
        assert_eq!(processor.step(), Ok(()));
        assert_eq!(byte(&processor, to), 0x9C);
        assert_eq!(byte(&processor, from), 0x9C);
        assert_eq!(byte(&processor, REG_F), 0x00);
        assert_eq!(pc(&processor), 1);
    }
}

#[test]
fn loads_of_the_byte_after_the_opcode() {
    let cases = [
        (0x06u8, REG_B),
        (0x0E, REG_C),
        (0x16, REG_D),
        (0x1E, REG_E),
        (0x26, REG_H),
        (0x2E, REG_L),
        (0x3E, REG_A),
    ];
    for (opcode, to) in cases {
        let mut processor = flat(&[opcode, 0xE7]);
        assert_eq!(processor.step(), Ok(()));
        let mut expected = [0u8; 8];
        expected[to] = 0xE7;
        assert_eq!(slots(processor.registers()), expected);
        assert_eq!(pc(&processor), 2);
    }
}

#[test]
fn loads_of_the_word_after_the_opcode() {
    let cases = [(0x01u8, REG_BC), (0x11, REG_DE), (0x21, REG_HL)];
    for (opcode, to) in cases {
        let mut processor = flat(&[opcode, 0x34, 0x12]);
        assert_eq!(processor.step(), Ok(()));
        assert_eq!(processor.registers().read_word(WordRegister(to)), 0x1234);
        assert_eq!(byte(&processor, to), 0x12);
        assert_eq!(byte(&processor, to + 1), 0x34);
        assert_eq!(pc(&processor), 3);
    }
}

#[test]
fn load_of_the_stack_pointer() {
    let mut processor = flat(&[0x31, 0xFE, 0xFF]);
    assert_eq!(processor.step(), Ok(()));
    assert_eq!(processor.registers().get_stack_pointer(), 0xFFFE);
    assert_eq!(slots(processor.registers()), [0; 8]);
    assert_eq!(pc(&processor), 3);
}

#[test]
fn store_of_the_stack_pointer() {
    let mut processor = flat(&[0x08, 0x00, 0xC0]);
    processor.registers_mut().set_stack_pointer(0xABCD);
    assert_eq!(processor.step(), Ok(()));
    assert_eq!(processor.memory().read_byte(0xC000), Ok(0xCD));
    assert_eq!(processor.memory().read_byte(0xC001), Ok(0xAB));
    assert_eq!(pc(&processor), 3);
}

#[test]
fn store_of_the_byte_after_the_opcode_at_hl() {
    let mut processor = flat(&[0x36, 0x5A]);
    processor.registers_mut().write_word(WordRegister(REG_HL), 0xC123);
    assert_eq!(processor.step(), Ok(()));
    assert_eq!(processor.memory().read_byte(0xC123), Ok(0x5A));
    assert_eq!(pc(&processor), 2);
}

#[test]
fn stores_of_a_through_a_pair() {
    let cases = [(0x02u8, REG_BC), (0x12, REG_DE), (0x77, REG_HL)];
    for (opcode, pair) in cases {
        let mut processor = flat(&[opcode]);
        processor.registers_mut().write_byte(ByteRegister(REG_A), 0x42);
        processor.registers_mut().write_word(WordRegister(pair), 0x8765);
        assert_eq!(processor.step(), Ok(()));
        assert_eq!(processor.memory().read_byte(0x8765), Ok(0x42));
        assert_eq!(processor.registers().read_word(WordRegister(pair)), 0x8765);
        assert_eq!(pc(&processor), 1);
    }
}

#[test]
fn loads_of_a_through_a_pair() {
    let cases = [(0x0Au8, REG_BC), (0x1A, REG_DE)];
    for (opcode, pair) in cases {
        let mut processor = flat(&[opcode]);
        processor.memory_mut().write_byte(0x8765, 0x99).unwrap();
        processor.registers_mut().write_word(WordRegister(pair), 0x8765);
        assert_eq!(processor.step(), Ok(()));
        assert_eq!(byte(&processor, REG_A), 0x99);
        assert_eq!(pc(&processor), 1);
    }
}

#[test]
fn store_of_a_at_the_address_after_the_opcode() {
    let mut processor = flat(&[0xEA, 0x10, 0xC0]);
    processor.registers_mut().write_byte(ByteRegister(REG_A), 0x3C);
    assert_eq!(processor.step(), Ok(()));
    assert_eq!(processor.memory().read_byte(0xC010), Ok(0x3C));
    assert_eq!(pc(&processor), 3);
}

#[test]
fn stores_through_hl_that_step_hl() {
    for (opcode, start, end) in [(0x22u8, 0x9FFFu16, 0xA000u16), (0x32, 0x9000, 0x8FFF), (0x22, 0xFFFF, 0x0000)] {
        let mut processor = flat(&[opcode]);
        processor.registers_mut().write_byte(ByteRegister(REG_A), 0x81);
        processor.registers_mut().write_word(WordRegister(REG_HL), start);
        assert_eq!(processor.step(), Ok(()));
        assert_eq!(processor.memory().read_byte(start), Ok(0x81));
        assert_eq!(processor.registers().read_word(WordRegister(REG_HL)), end);
        assert_eq!(byte(&processor, REG_F), 0x00);
    }
}

#[test]
fn loads_through_hl_that_step_hl() {
    for (opcode, start, end) in [(0x2Au8, 0x9000u16, 0x9001u16), (0x3A, 0x9000, 0x8FFF), (0x3A, 0x0000, 0xFFFF)] {
        let mut processor = flat(&[]);
        processor.memory_mut().write_byte(0x0100, opcode).unwrap();
        processor.memory_mut().write_byte(start, 0x6D).unwrap();
        processor.registers_mut().set_program_counter(0x0100);
        processor.registers_mut().write_word(WordRegister(REG_HL), start);
        assert_eq!(processor.step(), Ok(()));
        assert_eq!(byte(&processor, REG_A), 0x6D);
        assert_eq!(processor.registers().read_word(WordRegister(REG_HL)), end);
        assert_eq!(pc(&processor), 0x0101);
    }
}

#[test]
fn stores_and_loads_in_the_io_block() {
    let mut by_c = flat(&[0xE2]);
    by_c.registers_mut().write_byte(ByteRegister(REG_A), 0x77);
    by_c.registers_mut().write_byte(ByteRegister(REG_C), 0x11);
    assert_eq!(by_c.step(), Ok(()));
    assert_eq!(by_c.memory().read_byte(0xFF11), Ok(0x77));

    let mut top = flat(&[0xE2]);
    top.registers_mut().write_byte(ByteRegister(REG_A), 0x78);
    top.registers_mut().write_byte(ByteRegister(REG_C), 0xFF);
    assert_eq!(top.step(), Ok(()));
    assert_eq!(top.memory().read_byte(0xFFFF), Ok(0x78));

    let mut by_operand = flat(&[0xE0, 0x26]);
    by_operand.registers_mut().write_byte(ByteRegister(REG_A), 0x80);
    assert_eq!(by_operand.step(), Ok(()));
    assert_eq!(by_operand.memory().read_byte(0xFF26), Ok(0x80));
    assert_eq!(pc(&by_operand), 2);

    let mut load = flat(&[0xF0, 0x44]);
    load.memory_mut().write_byte(0xFF44, 0x90).unwrap();
    assert_eq!(load.step(), Ok(()));
    assert_eq!(byte(&load, REG_A), 0x90);
    assert_eq!(pc(&load), 2);
}

#[test]
fn push_and_pop_of_bc() {
    let mut processor = flat(&[0xC5, 0xC1]);
    processor.registers_mut().set_stack_pointer(0xD000);
    processor.registers_mut().write_word(WordRegister(REG_BC), 0xA1B2);
    assert_eq!(processor.step(), Ok(()));
    assert_eq!(processor.registers().get_stack_pointer(), 0xCFFE);
    assert_eq!(processor.memory().read_byte(0xCFFF), Ok(0xB2));
    assert_eq!(processor.memory().read_byte(0xD000), Ok(0xA1));
    processor.registers_mut().write_word(WordRegister(REG_BC), 0x0000);
    assert_eq!(processor.step(), Ok(()));
    assert_eq!(processor.registers().read_word(WordRegister(REG_BC)), 0xA1B2);
    assert_eq!(processor.registers().get_stack_pointer(), 0xD000);
    assert_eq!(pc(&processor), 2);
}

#[test]
fn push_then_pop_gives_the_word_back_for_every_stack_pointer() {
    let mut processor = flat(&[]);
    for sp in (0..=u16::MAX).step_by(257).chain([0x0000, 0x0001, 0xFFFF, 0xFFFE]) {
        let value = sp.wrapping_mul(31).wrapping_add(7);
        processor.registers_mut().set_stack_pointer(sp);
        assert_eq!(processor.stack_push(value), Ok(()));
        assert_eq!(processor.registers().get_stack_pointer(), sp.wrapping_sub(2));
        assert_eq!(processor.stack_pop(), Ok(value));
        assert_eq!(processor.registers().get_stack_pointer(), sp);
    }
}

#[test]
fn push_then_pop_gives_every_word_back() {
    let mut processor = flat(&[]);
    processor.registers_mut().set_stack_pointer(0xFFFE);
    for value in 0..=u16::MAX {
        assert_eq!(processor.stack_push(value), Ok(()));
        assert_eq!(processor.stack_pop(), Ok(value));
    }
    assert_eq!(processor.registers().get_stack_pointer(), 0xFFFE);
}

#[test]
fn push_writes_one_below_the_stack_pointer_and_pop_reads_one_above() {
    let mut processor = flat(&[]);
    processor.registers_mut().set_stack_pointer(0x0000);
    assert_eq!(processor.stack_push(0x1234), Ok(()));
    assert_eq!(processor.memory().read_byte(0xFFFF), Ok(0x34));
    assert_eq!(processor.memory().read_byte(0x0000), Ok(0x12));
    assert_eq!(processor.registers().get_stack_pointer(), 0xFFFE);
    processor.registers_mut().set_stack_pointer(0x7000);
    processor.memory_mut().write_byte(0x7001, 0xCD).unwrap();
    processor.memory_mut().write_byte(0x7002, 0xAB).unwrap();
    assert_eq!(processor.stack_pop(), Ok(0xABCD));
    assert_eq!(processor.registers().get_stack_pointer(), 0x7002);
}

#[test]
fn increments_and_decrements_of_slots() {
    let cases = [
        (0x04u8, REG_B, 0x0Fu8, 0x10u8, 0x20u8),
        (0x0C, REG_C, 0xFF, 0x00, 0xA0),
        (0x05, REG_B, 0x01, 0x00, 0xC0),
        (0x0D, REG_C, 0x00, 0xFF, 0x60),
        (0x3D, REG_A, 0x42, 0x41, 0x40),
    ];
    for (opcode, register, before, after, flags) in cases {
        let mut processor = flat(&[opcode]);
        processor.registers_mut().write_byte(ByteRegister(register), before);
        assert_eq!(processor.step(), Ok(()));
        assert_eq!(byte(&processor, register), after);
        assert_eq!(byte(&processor, REG_F), flags);
        assert_eq!(pc(&processor), 1);
    }
}

#[test]
fn increments_of_pairs_touch_no_flag() {
    for (opcode, pair) in [(0x13u8, REG_DE), (0x23, REG_HL)] {
        let mut processor = flat(&[opcode]);
        processor.registers_mut().write_byte(ByteRegister(REG_F), 0xF0);
        processor.registers_mut().write_word(WordRegister(pair), 0xFFFF);
        assert_eq!(processor.step(), Ok(()));
        assert_eq!(processor.registers().read_word(WordRegister(pair)), 0x0000);
        assert_eq!(byte(&processor, REG_F), 0xF0);
    }
}

#[test]
fn subtract_l_stores_the_difference_in_a() {
    let mut processor = flat(&[0x95]);
    processor.registers_mut().write_byte(ByteRegister(REG_A), 0x10);
    processor.registers_mut().write_byte(ByteRegister(REG_L), 0x21);
    assert_eq!(processor.step(), Ok(()));
    assert_eq!(byte(&processor, REG_A), 0xEF);
    assert_eq!(byte(&processor, REG_L), 0x21);
    assert_eq!(byte(&processor, REG_F), 0x70);
}

#[test]
fn compare_sets_the_flags_of_a_subtraction_and_keeps_a() {
    for a in [0x00u8, 0x0F, 0x10, 0x42, 0x80, 0xFF] {
        for b in [0x00u8, 0x01, 0x0F, 0x10, 0x42, 0x90, 0xFF] {
            let mut compared = flat(&[0xFE, b]);
            compared.registers_mut().write_byte(ByteRegister(REG_A), a);
            assert_eq!(compared.step(), Ok(()));

            let mut subtracted = flat(&[0x95]);
            subtracted.registers_mut().write_byte(ByteRegister(REG_A), a);
            subtracted.registers_mut().write_byte(ByteRegister(REG_L), b);
            assert_eq!(subtracted.step(), Ok(()));

            assert_eq!(byte(&compared, REG_F), byte(&subtracted, REG_F));
            assert_eq!(byte(&compared, REG_A), a);
            assert_eq!(byte(&subtracted, REG_A), a.wrapping_sub(b));
            assert_eq!(compared.registers().get_flag(CARRY_FLAG), a < b);
            assert_eq!(compared.registers().get_flag(HALF_CARRY_FLAG), (a & 0xF) < (b & 0xF));
            assert_eq!(compared.registers().get_flag(ZERO_FLAG), a == b);
            assert!(compared.registers().get_flag(SUBTRACT_FLAG));
            assert_eq!(pc(&compared), 2);
        }
    }
}

#[test]
fn xor_a_sets_zero_and_keeps_the_other_flags() {
    let mut processor = flat(&[0xAF]);
    processor.registers_mut().write_byte(ByteRegister(REG_A), 0x5A);
    processor.registers_mut().write_byte(ByteRegister(REG_F), 0x50);
    assert_eq!(processor.step(), Ok(()));
    assert_eq!(byte(&processor, REG_A), 0x00);
    assert_eq!(byte(&processor, REG_F), 0xD0);
    assert_eq!(pc(&processor), 1);
}

#[test]
fn rotate_left_a_goes_through_carry() {
    let mut processor = flat(&[0x17, 0x17]);
    processor.registers_mut().write_byte(ByteRegister(REG_A), 0x80);
    assert_eq!(processor.step(), Ok(()));
    assert_eq!(byte(&processor, REG_A), 0x00);
    assert_eq!(byte(&processor, REG_F), 0x90);
    assert_eq!(processor.step(), Ok(()));
    assert_eq!(byte(&processor, REG_A), 0x01);
    assert_eq!(byte(&processor, REG_F), 0x00);
}

#[test]
fn prefixed_rotate_left_c_counts_as_one_step() {
    let mut processor = flat(&[0xCB, 0x11]);
    processor.registers_mut().write_byte(ByteRegister(REG_C), 0xC1);
    processor.registers_mut().set_flag(CARRY_FLAG, true);
    assert_eq!(processor.step(), Ok(()));
    assert_eq!(byte(&processor, REG_C), 0x83);
    assert_eq!(byte(&processor, REG_F), 0x10);
    assert_eq!(pc(&processor), 2);
}

#[test]
fn prefixed_bit_seven_of_h() {
    for (h, flags_before, flags_after) in [(0x80u8, 0x00u8, 0x20u8), (0x7F, 0x00, 0xA0), (0x00, 0x50, 0xB0), (0xFF, 0xD0, 0x30)] {
        let mut processor = flat(&[0xCB, 0x7C]);
        processor.registers_mut().write_byte(ByteRegister(REG_H), h);
        processor.registers_mut().write_byte(ByteRegister(REG_F), flags_before);
        assert_eq!(processor.step(), Ok(()));
        assert_eq!(byte(&processor, REG_F), flags_after);
        assert_eq!(byte(&processor, REG_H), h);
        assert_eq!(pc(&processor), 2);
    }
}

#[test]
fn an_unknown_byte_fails_after_the_fetch() {
    let mut processor = flat(&[0xD3]);
    assert_eq!(processor.step(), Err(Fault::IllegalOpcode { byte: 0xD3, was_special: false }));
    assert_eq!(pc(&processor), 1);
    assert_eq!(slots(processor.registers()), [0; 8]);
}

#[test]
fn an_unknown_byte_after_the_prefix_fails_after_both_fetches() {
    let mut processor = flat(&[0xCB, 0x00]);
    assert_eq!(processor.step(), Err(Fault::IllegalOpcode { byte: 0x00, was_special: true }));
    assert_eq!(pc(&processor), 2);
    assert_eq!(slots(processor.registers()), [0; 8]);
}

#[test]
fn execute_instruction_decodes_before_it_acts() {
    let mut processor = flat(&[]);
    assert_eq!(
        processor.execute_instruction(Instruction(0xFF)),
        Err(Fault::IllegalOpcode { byte: 0xFF, was_special: false })
    );
    assert_eq!(pc(&processor), 0);
    processor.registers_mut().write_byte(ByteRegister(REG_A), 0x33);
    assert_eq!(processor.execute_instruction(Instruction(0x4F)), Ok(()));
    assert_eq!(byte(&processor, REG_C), 0x33);
    assert_eq!(pc(&processor), 0);
}

#[test]
fn a_fetch_from_nowhere_fails_and_keeps_the_program_counter() {
    let mut processor = routed(&[], &[]);
    processor.registers_mut().set_program_counter(0x4000);
    assert_eq!(processor.step(), Err(Fault::UnmappedAddress { address: 0x4000 }));
    assert_eq!(processor.registers().get_program_counter(), 0x4000);
}

#[test]
fn a_failing_operand_read_keeps_the_program_counter_behind_the_opcode() {
    let mut processor = routed(&[], &[(0x3FFF, 0x06)]);
    processor.registers_mut().set_program_counter(0x3FFF);
    assert_eq!(processor.step(), Err(Fault::UnmappedAddress { address: 0x4000 }));
    assert_eq!(processor.registers().get_program_counter(), 0x4000);
    assert_eq!(processor.registers().read_byte(ByteRegister(REG_B)), 0);
}

#[test]
fn a_store_into_an_image_fails_with_a_read_only_violation() {
    let mut processor = routed(&[0x77], &[]);
    processor.registers_mut().write_word(WordRegister(REG_HL), 0x0100);
    processor.registers_mut().write_byte(ByteRegister(REG_A), 0x01);
    assert_eq!(processor.step(), Err(Fault::ReadOnlyViolation { address: 0x0100 }));
    assert_eq!(processor.memory().read_byte(0x0100), Ok(0));
}

#[test]
fn a_store_that_fails_does_not_step_hl() {
    let mut processor = routed(&[0x22], &[]);
    processor.registers_mut().write_word(WordRegister(REG_HL), 0xA000);
    assert_eq!(processor.step(), Err(Fault::UnmappedAddress { address: 0xA000 }));
    assert_eq!(processor.registers().read_word(WordRegister(REG_HL)), 0xA000);
    assert_eq!(processor.registers().get_program_counter(), 1);
}

#[test]
fn a_push_that_fails_keeps_the_stack_pointer() {
    let mut processor = routed(&[0xC5], &[]);
    processor.registers_mut().set_stack_pointer(0x0100);
    assert_eq!(processor.step(), Err(Fault::ReadOnlyViolation { address: 0x00FF }));
    assert_eq!(processor.registers().get_stack_pointer(), 0x0100);
}

#[test]
fn a_pop_that_fails_keeps_the_stack_pointer() {
    let mut processor = routed(&[0xC1], &[]);
    processor.registers_mut().set_stack_pointer(0xFFFE);
    assert_eq!(processor.step(), Err(Fault::UnmappedAddress { address: 0xFFFF }));
    assert_eq!(processor.registers().get_stack_pointer(), 0xFFFE);
    assert_eq!(processor.registers().read_word(WordRegister(REG_BC)), 0);
}

#[test]
fn a_call_whose_push_fails_keeps_the_program_counter_behind_the_operand() {
    let mut processor = routed(&[0xCD, 0x00, 0x02], &[]);
    processor.registers_mut().set_stack_pointer(0x8000);
    assert_eq!(processor.step(), Err(Fault::UnmappedAddress { address: 0x7FFF }));
    assert_eq!(processor.registers().get_program_counter(), 0x0003);
    assert_eq!(processor.registers().get_stack_pointer(), 0x8000);
}

#[test]
fn the_lower_nibble_of_f_stays_zero_through_a_program() {
    let program = [
        0x3E, 0x10, 0x2E, 0x21, 0x95, 0x06, 0xFF, 0x04, 0x05, 0x0E, 0x00, 0x0D, 0x0C, 0xFE, 0xEF,
        0x17, 0xCB, 0x11, 0xCB, 0x7C, 0xAF, 0x3D, 0x13, 0x23, 0x00,
    ];
    let mut processor = flat(&program);
    while (pc(&processor) as usize) < program.len() {
        assert_eq!(processor.step(), Ok(()));
        assert_eq!(byte(&processor, REG_F) & 0x0F, 0);
    }
    assert_eq!(pc(&processor) as usize, program.len());
}

#[test]
fn a_short_program_counts_down_to_zero() {
    // B = 3; then B goes down by one, and the jump goes back while B is not zero.
    let program = [0x06, 0x03, 0x05, 0x20, 0xFD, 0x00];
    let mut processor = flat(&program);
    let mut steps = 0;
    while pc(&processor) != 5 {
        assert_eq!(processor.step(), Ok(()));
        steps += 1;
        assert!(steps < 100);
    }
    assert_eq!(steps, 7);
    assert_eq!(byte(&processor, REG_B), 0);
    assert!(processor.registers().get_flag(ZERO_FLAG));
    assert_eq!(byte(&processor, REG_D), 0);
    assert_eq!(byte(&processor, REG_E), 0);
}

#[test]
fn helpers_of_the_processor_set_the_flags() {
    let mut processor = flat(&[]);
    assert_eq!(processor.subtract(0x00, 0x01), 0xFF);
    assert_eq!(byte(&processor, REG_F), 0x70);
    assert_eq!(processor.shift_left(0x40, true), 0x81);
    assert_eq!(byte(&processor, REG_F), 0x60);
    assert_eq!(byte(&processor, REG_A), 0x00);
    assert_eq!(processor.registers().read_word(WordRegister(REG_DE)), 0);
}

#[test]
fn the_trace_tells_what_the_next_step_fetches() {
    let mut processor = flat(&[0x21, 0x34, 0x12, 0xCB, 0x7C, 0xCB, 0x00, 0xD3]);
    assert_eq!(
        processor.trace(),
        Ok(Trace { pc: 0, opcode: Opcode::LoadImmIntoHl, special: None })
    );
    assert_eq!(pc(&processor), 0);
    assert_eq!(processor.step(), Ok(()));
    assert_eq!(
        processor.trace(),
        Ok(Trace { pc: 3, opcode: Opcode::Special, special: Some(SpecialOpcode::Bit7H) })
    );
    assert_eq!(processor.step(), Ok(()));
    assert_eq!(processor.trace(), Err(Fault::IllegalOpcode { byte: 0x00, was_special: true }));
    assert_eq!(pc(&processor), 5);
    processor.registers_mut().set_program_counter(7);
    assert_eq!(processor.trace(), Err(Fault::IllegalOpcode { byte: 0xD3, was_special: false }));
    assert_eq!(processor.step(), Err(Fault::IllegalOpcode { byte: 0xD3, was_special: false }));
}

#[test]
fn the_trace_fails_where_the_fetch_would() {
    let mut processor = routed(&[], &[(0x3FFF, 0xCB)]);
    processor.registers_mut().set_program_counter(0x5000);
    assert_eq!(processor.trace(), Err(Fault::UnmappedAddress { address: 0x5000 }));
    processor.registers_mut().set_program_counter(0x3FFF);
    assert_eq!(processor.trace(), Err(Fault::UnmappedAddress { address: 0x4000 }));
    assert_eq!(processor.step(), Err(Fault::UnmappedAddress { address: 0x4000 }));
    assert_eq!(processor.registers().get_program_counter(), 0x4000);
}
