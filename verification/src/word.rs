//! Bytes, 16-bit words and the arithmetic that wraps at their bounds.

use vstd::prelude::*;

verus! {

/// The upper eight bits of a word.
pub open spec fn high_byte(value: u16) -> u8 {
    (value / 256) as u8
}

/// The lower eight bits of a word.
pub open spec fn low_byte(value: u16) -> u8 {
    (value % 256) as u8
}

/// The word made of an upper and a lower byte.
pub open spec fn word(high: u8, low: u8) -> u16 {
    (high * 256 + low) as u16
}

/// An integer brought into the range of a byte, modulo 2^8.
pub open spec fn wrap8(i: int) -> u8 {
    (i % 0x100) as u8
}

/// An integer brought into the range of a word, modulo 2^16.
pub open spec fn wrap16(i: int) -> u16 {
    (i % 0x1_0000) as u16
}

/// A byte read as a two's-complement number, from -128 to 127.
pub open spec fn sign_extend(byte: u8) -> i16 {
    if byte < 128 {
        byte as i16
    } else {
        (byte - 256) as i16
    }
}

/// Splitting a word and joining the halves gives the word back.
pub proof fn lemma_split_then_join(value: u16)
    ensures
        word(high_byte(value), low_byte(value)) == value,
{
}

/// Joining two bytes and splitting the word gives the bytes back.
pub proof fn lemma_join_then_split(high: u8, low: u8)
    ensures
        high_byte(word(high, low)) == high,
        low_byte(word(high, low)) == low,
{
}

/// The halves of a word are what shifting and masking select.
pub proof fn lemma_halves_as_bits(value: u16)
    ensures
        high_byte(value) == value >> 8,
        low_byte(value) == value & 0xFF,
{
    assert(value / 256 == value >> 8 && value % 256 == value & 0xFF) by (bit_vector);
}

/// Takes a word apart into its upper and lower byte.
pub fn split(value: u16) -> (halves: (u8, u8))
    ensures
        halves.0 == high_byte(value),
        halves.1 == low_byte(value),
{
    proof {
        lemma_halves_as_bits(value);
        assert((value >> 8) & 0xFF == value >> 8) by (bit_vector);
    }
    (((value >> 8) & 0xFF) as u8, (value & 0xFF) as u8)
}

/// Puts an upper and a lower byte together.
pub fn join(high: u8, low: u8) -> (value: u16)
    ensures
        value == word(high, low),
{
    assert(((high as u16) << 8) | (low as u16) == high * 256 + low) by (bit_vector);
    ((high as u16) << 8) | (low as u16)
}

/// Reads a byte as a signed displacement.
pub fn signed(byte: u8) -> (offset: i16)
    ensures
        offset == sign_extend(byte),
{
    if byte < 128 {
        byte as i16
    } else {
        byte as i16 - 256
    }
}

/// Moves a word by a signed distance, wrapping at both ends.
pub fn offset_by(base: u16, distance: i16) -> (moved: u16)
    ensures
        moved == wrap16(base + distance),
{
    let wide: i32 = base as i32 + distance as i32;
    if wide < 0 {
        (wide + 0x1_0000) as u16
    } else if wide >= 0x1_0000 {
        (wide - 0x1_0000) as u16
    } else {
        wide as u16
    }
}

/// Moves a word back by a signed distance, wrapping at both ends.
pub fn offset_back(base: u16, distance: i16) -> (moved: u16)
    ensures
        moved == wrap16(base - distance),
{
    let wide: i32 = base as i32 - distance as i32;
    if wide < 0 {
        (wide + 0x1_0000) as u16
    } else if wide >= 0x1_0000 {
        (wide - 0x1_0000) as u16
    } else {
        wide as u16
    }
}

} // verus!
