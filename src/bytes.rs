//! Conversions between bytes and 16-bit words.

use vstd::prelude::*;

verus! {

/// The word whose high byte is `h` and low byte is `l`.
pub open spec fn word_of(h: u8, l: u8) -> u16 {
    (h as int * 256 + l as int) as u16
}

/// The high byte of a word.
pub open spec fn high_of(w: u16) -> u8 {
    (w as int / 256) as u8
}

/// The low byte of a word.
pub open spec fn low_of(w: u16) -> u8 {
    (w as int % 256) as u8
}

/// Two's complement negation of a byte.
pub open spec fn neg8(x: u8) -> u8 {
    ((256 - x as int) % 256) as u8
}

/// Combines a high and a low byte into a word.
pub fn promote(h: u8, l: u8) -> (r: u16)
    ensures
        r == word_of(h, l),
        r as int == h as int * 256 + l as int,
{
    (h as u16) * 256 + (l as u16)
}

/// The high byte of a word.
pub fn high(value: u16) -> (r: u8)
    ensures
        r == high_of(value),
{
    (value / 256) as u8
}

/// The low byte of a word.
pub fn low(value: u16) -> (r: u8)
    ensures
        r == low_of(value),
{
    (value % 256) as u8
}

/// Splits a word into its high and low bytes.
pub fn demote(value: u16) -> (r: (u8, u8))
    ensures
        r == (high_of(value), low_of(value)),
{
    (high(value), low(value))
}

/// Two's complement of a byte.
pub fn compl2(data: u8) -> (r: u8)
    ensures
        r == neg8(data),
        r as int == (256 - data as int) % 256,
{
    if data == 0 {
        0
    } else {
        (256 - data as u16) as u8
    }
}

/// The most significant bit of a byte, kept in place (0 or 0x80).
pub fn msb(data: u8) -> (r: u8)
    ensures
        r == (if data >= 0x80 { 0x80u8 } else { 0u8 }),
{
    if data >= 0x80 {
        0x80
    } else {
        0
    }
}

/// The least significant bit of a byte (0 or 1).
pub fn lsb(data: u8) -> (r: u8)
    ensures
        r == data % 2,
{
    data % 2
}

/// Promoting the two halves of a word gives the word back.
pub proof fn lemma_demote_promote(w: u16)
    ensures
        word_of(high_of(w), low_of(w)) == w,
{
}

} // verus!
