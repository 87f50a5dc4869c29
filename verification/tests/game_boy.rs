use gameboy::cpu::registers::{ByteRegister, WordRegister, REG_A, REG_F, REG_HL};
use gameboy::display::Display;
use gameboy::fault::Fault;
use gameboy::game_boy::GameBoy;
use gameboy::io_ports::{IOPorts, NR_52_VALUE};
use gameboy::memory::{Memory, RandomAccessMemory};
use gameboy::processor::opcode::Opcode;
use gameboy::processor::Trace;

fn switched_on(program: &[u8]) -> GameBoy {
    let mut bootrom = vec![0u8; 0xFF];
    bootrom[..program.len()].copy_from_slice(program);
    let gamerom = vec![0xD3u8; 0x4000];
    GameBoy::new(bootrom.into_boxed_slice(), gamerom.into_boxed_slice())
}

#[test]
fn a_game_boy_starts_with_its_images_in_place() {
    let game_boy = switched_on(&[0x31, 0xFE, 0xFF]);
    let processor = game_boy.processor();
    assert_eq!(processor.registers().get_program_counter(), 0);
    assert_eq!(processor.registers().get_stack_pointer(), 0);
    assert_eq!(processor.registers().read_word(WordRegister(REG_HL)), 0);
    assert_eq!(processor.memory().read_byte(0x0000), Ok(0x31));
    assert_eq!(processor.memory().read_byte(0x0001), Ok(0xFE));
    assert_eq!(processor.memory().read_byte(0x00FE), Ok(0x00));
    assert_eq!(processor.memory().read_byte(0x00FF), Ok(0xD3));
    assert_eq!(processor.memory().read_byte(0xC000), Ok(0x00));
}

#[test]
fn a_game_boy_runs_the_start_of_a_boot_program() {
    // SP = 0xFFFE; A = 0; HL = 0x9FFF; then A is stored at HL, and HL goes down.
    let mut game_boy = switched_on(&[0x31, 0xFE, 0xFF, 0xAF, 0x21, 0xFF, 0x9F, 0x32]);
    game_boy.processor_mut().registers_mut().write_byte(ByteRegister(REG_A), 0x99);
    for _ in 0..4 {
        assert_eq!(game_boy.step(), Ok(()));
    }
    let registers = game_boy.processor().registers();
    assert_eq!(registers.get_stack_pointer(), 0xFFFE);
    assert_eq!(registers.read_byte(ByteRegister(REG_A)), 0x00);
    assert_eq!(registers.read_byte(ByteRegister(REG_F)), 0x80);
    assert_eq!(registers.read_word(WordRegister(REG_HL)), 0x9FFE);
    assert_eq!(registers.get_program_counter(), 0x0008);
    assert_eq!(game_boy.processor().memory().read_byte(0x9FFF), Ok(0x00));
}

#[test]
fn a_game_boy_stops_at_an_unknown_byte() {
    let mut game_boy = switched_on(&[]);
    for _ in 0..0xFF {
        assert_eq!(game_boy.step(), Ok(()));
    }
    assert_eq!(game_boy.processor().registers().get_program_counter(), 0x00FF);
    assert_eq!(game_boy.step(), Err(Fault::IllegalOpcode { byte: 0xD3, was_special: false }));
    assert_eq!(game_boy.processor().registers().get_program_counter(), 0x0100);
}

#[test]
fn a_display_holds_the_memory_it_was_given() {
    let mut memory = RandomAccessMemory::new(0x2000);
    memory.write_byte(0x0010, 0xAA).unwrap();
    let display = Display::new(memory);
    assert_eq!(display.memory().read_byte(0x0010), Ok(0xAA));
    assert_eq!(display.memory().read_byte(0x0011), Ok(0x00));
    assert_eq!(display.memory().read_byte(0x2000), Err(Fault::UnmappedAddress { address: 0x2000 }));
}

#[test]
fn the_sound_register_reads_as_switched_on() {
    let ports = IOPorts::default();
    assert_eq!(ports.read_nr_52(), 0xF1);
    assert_eq!(NR_52_VALUE, 0xF1);
}

#[test]
fn a_game_boy_traces_its_next_instruction() {
    let mut game_boy = switched_on(&[0x31, 0xFE, 0xFF, 0xAF]);
    assert_eq!(game_boy.trace(), Ok(Trace { pc: 0, opcode: Opcode::LoadImmIntoSp, special: None }));
    assert_eq!(game_boy.step(), Ok(()));
    assert_eq!(game_boy.trace(), Ok(Trace { pc: 3, opcode: Opcode::XorA, special: None }));
}
