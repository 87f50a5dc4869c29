use gameboy::word::{join, offset_back, offset_by, signed, split};

#[test]
fn split_gives_upper_then_lower_byte() {
    assert_eq!(split(0x1234), (0x12, 0x34));
    assert_eq!(split(0x00FF), (0x00, 0xFF));
    assert_eq!(split(0xFF00), (0xFF, 0x00));
}

#[test]
fn join_puts_the_first_byte_on_top() {
    assert_eq!(join(0x12, 0x34), 0x1234);
    assert_eq!(join(0x00, 0xFF), 0x00FF);
    assert_eq!(join(0xFF, 0xFF), 0xFFFF);
}

#[test]
fn split_and_join_undo_each_other_for_every_word() {
    for value in 0..=u16::MAX {
        let (high, low) = split(value);
        assert_eq!(join(high, low), value);
    }
}

#[test]
fn signed_reads_two_s_complement() {
    assert_eq!(signed(0x00), 0);
    assert_eq!(signed(0x7F), 127);
    assert_eq!(signed(0x80), -128);
    assert_eq!(signed(0xFE), -2);
    assert_eq!(signed(0xFF), -1);
}

#[test]
fn offset_by_wraps_at_both_ends() {
    assert_eq!(offset_by(0x0000, 1), 0x0001);
    assert_eq!(offset_by(0xFFFF, 1), 0x0000);
    assert_eq!(offset_by(0xFFFF, 2), 0x0001);
    assert_eq!(offset_by(0x0000, -1), 0xFFFF);
    assert_eq!(offset_by(0x7FFF, 1), 0x8000);
    assert_eq!(offset_by(0x8000, i16::MIN), 0x0000);
    assert_eq!(offset_by(0x0000, i16::MIN), 0x8000);
    assert_eq!(offset_by(0xFFFF, i16::MAX), 0x7FFE);
}

#[test]
fn offset_back_wraps_at_both_ends() {
    assert_eq!(offset_back(0x0002, 2), 0x0000);
    assert_eq!(offset_back(0x0000, 2), 0xFFFE);
    assert_eq!(offset_back(0x0001, 2), 0xFFFF);
    assert_eq!(offset_back(0xFFFF, -1), 0x0000);
    assert_eq!(offset_back(0x0000, i16::MIN), 0x8000);
    assert_eq!(offset_back(0xFFFF, i16::MIN), 0x7FFF);
}
