use gameboy::cpu::instruction::{Instruction, SpecialInstruction};
use gameboy::cpu::opcode::{Opcode, SpecialOpcode};
use gameboy::fault::Fault;
use gameboy::processor::instruction::Instruction as ExtendedInstruction;
use gameboy::processor::opcode::Opcode as ExtendedOpcode;

#[test]
fn baseline_table_decodes_exactly_its_bytes() {
    let mut known = 0;
    for byte in 0..=u8::MAX {
        match Opcode::from_u8(byte) {
            Some(opcode) => {
                known += 1;
                assert_eq!(opcode.to_u8(), byte);
                assert_eq!(Instruction(byte).opcode(), Ok(opcode));
            }
            None => {
                assert_eq!(
                    Instruction(byte).opcode(),
                    Err(Fault::IllegalOpcode { byte, was_special: false })
                );
            }
        }
    }
    assert_eq!(known, 39);
}

#[test]
fn extended_table_decodes_exactly_its_bytes() {
    let mut known = 0;
    for byte in 0..=u8::MAX {
        match ExtendedOpcode::from_u8(byte) {
            Some(opcode) => {
                known += 1;
                assert_eq!(opcode.to_u8(), byte);
                assert_eq!(ExtendedInstruction(byte).opcode(), Ok(opcode));
            }
            None => {
                assert_eq!(
                    ExtendedInstruction(byte).opcode(),
                    Err(Fault::IllegalOpcode { byte, was_special: false })
                );
            }
        }
    }
    assert_eq!(known, 57);
}

#[test]
fn prefixed_table_decodes_exactly_its_bytes() {
    let mut known = 0;
    for byte in 0..=u8::MAX {
        match SpecialOpcode::from_u8(byte) {
            Some(opcode) => {
                known += 1;
                assert_eq!(opcode.to_u8(), byte);
                assert_eq!(SpecialInstruction(byte).opcode(), Ok(opcode));
            }
            None => {
                assert_eq!(
                    SpecialInstruction(byte).opcode(),
                    Err(Fault::IllegalOpcode { byte, was_special: true })
                );
            }
        }
    }
    assert_eq!(known, 2);
}

#[test]
fn chosen_bytes_of_the_baseline_table() {
    assert_eq!(Opcode::from_u8(0xAF), Some(Opcode::XorA));
    assert_eq!(Opcode::from_u8(0x21), Some(Opcode::LoadImmIntoHl));
    assert_eq!(Opcode::from_u8(0xCD), Some(Opcode::CallAddrImm));
    assert_eq!(Opcode::from_u8(0xCB), Some(Opcode::Special));
    assert_eq!(Opcode::from_u8(0x18), Some(Opcode::JumpRelative));
    assert_eq!(Opcode::from_u8(0x00), None);
    assert_eq!(Opcode::from_u8(0xC3), None);
    assert_eq!(Opcode::from_u8(0xFF), None);
}

#[test]
fn chosen_bytes_of_the_extended_table() {
    assert_eq!(ExtendedOpcode::from_u8(0x00), Some(ExtendedOpcode::NoOp));
    assert_eq!(ExtendedOpcode::from_u8(0xC3), Some(ExtendedOpcode::Jump));
    assert_eq!(ExtendedOpcode::from_u8(0xAF), Some(ExtendedOpcode::XorA));
    assert_eq!(ExtendedOpcode::from_u8(0x08), Some(ExtendedOpcode::LoadSpIntoImmAddr));
    assert_eq!(ExtendedOpcode::from_u8(0xCB), Some(ExtendedOpcode::Special));
    assert_eq!(ExtendedOpcode::from_u8(0x10), None);
    assert_eq!(ExtendedOpcode::from_u8(0x76), None);
    assert_eq!(ExtendedOpcode::from_u8(0xFF), None);
}

#[test]
fn the_two_tables_are_spaces_of_their_own() {
    assert_eq!(ExtendedOpcode::from_u8(0x11), Some(ExtendedOpcode::LoadImmIntoDe));
    assert_eq!(SpecialOpcode::from_u8(0x11), Some(SpecialOpcode::RotateLeftC));
    assert_eq!(SpecialOpcode::from_u8(0x7C), Some(SpecialOpcode::Bit7H));
    assert_eq!(ExtendedOpcode::from_u8(0x7C), None);
    assert_eq!(SpecialOpcode::from_u8(0xAF), None);
}

#[test]
fn the_extended_table_holds_every_byte_of_the_baseline_table() {
    for byte in 0..=u8::MAX {
        if Opcode::from_u8(byte).is_some() {
            assert!(ExtendedOpcode::from_u8(byte).is_some());
        }
    }
}

#[test]
fn an_unknown_byte_is_an_illegal_opcode() {
    assert_eq!(
        Instruction(0xD3).opcode(),
        Err(Fault::IllegalOpcode { byte: 0xD3, was_special: false })
    );
    assert_eq!(
        ExtendedInstruction(0xD3).opcode(),
        Err(Fault::IllegalOpcode { byte: 0xD3, was_special: false })
    );
    assert_eq!(
        SpecialInstruction(0x00).opcode(),
        Err(Fault::IllegalOpcode { byte: 0x00, was_special: true })
    );
}
