//! Small helpers on bytes and 16-bit words.

use vstd::prelude::*;

verus! {

/// The 16-bit word whose low byte is `lower` and whose high byte is `upper`.
pub open spec fn word_of(lower: u8, upper: u8) -> u16 {
    (lower as int + 256 * (upper as int)) as u16
}

/// The low byte of a word.
pub open spec fn low_byte(word: u16) -> u8 {
    (word % 256) as u8
}

/// The high byte of a word.
pub open spec fn high_byte(word: u16) -> u8 {
    (word / 256) as u8
}

/// A byte read as a two's-complement number.
pub open spec fn signed_value(byte: u8) -> int {
    if byte < 128 {
        byte as int
    } else {
        byte as int - 256
    }
}

/// Splitting a word and joining the halves gives the word back, and the halves
/// of a joined word are the bytes it was made of.
pub proof fn lemma_word_halves(lower: u8, upper: u8, word: u16)
    ensures
        low_byte(word_of(lower, upper)) == lower,
        high_byte(word_of(lower, upper)) == upper,
        word_of(low_byte(word), high_byte(word)) == word,
{
}

pub fn make_u16(lower: u8, upper: u8) -> (word: u16)
    ensures
        word == word_of(lower, upper),
{
    let lower_wide: u16 = lower as u16;
    let upper_wide: u16 = upper as u16;
    assert(lower_wide | (upper_wide << 8) == lower_wide + 256 * upper_wide) by (bit_vector)
        requires
            lower_wide < 256,
            upper_wide < 256,
    ;
    lower_wide | (upper_wide << 8)
}

pub fn split_u16(word: u16) -> (halves: (u8, u8))
    ensures
        halves.0 == low_byte(word),
        halves.1 == high_byte(word),
{
    ((word % 256) as u8, (word / 256) as u8)
}

/// The byte with only bit `index` set.
pub open spec fn bit_mask(index: u8) -> u8 {
    1u8 << index
}

pub fn make_bit(index: u8) -> (mask: u8)
    requires
        index < 8,
    ensures
        mask == bit_mask(index),
{
    1u8 << index
}

pub fn to_signed(byte: u8) -> (value: i16)
    ensures
        value == signed_value(byte),
{
    if byte < 128 {
        byte as i16
    } else {
        byte as i16 - 256
    }
}

} // verus!
