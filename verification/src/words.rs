//! Byte and word helpers: splitting 16-bit words into bytes, joining bytes
//! into words, and sign-extending the 8-bit relative-jump offset.
use vstd::prelude::*;

verus! {

/// The high byte of a 16-bit word.
pub open spec fn hi16(v: u16) -> u8 {
    (v / 256) as u8
}

/// The low byte of a 16-bit word.
pub open spec fn lo16(v: u16) -> u8 {
    (v % 256) as u8
}

/// The 16-bit word with the given high and low bytes.
pub open spec fn word16(hi: u8, lo: u8) -> u16 {
    (hi * 256 + lo) as u16
}

/// The 16-bit sign extension of a byte, as hardware reads a relative-jump
/// offset: bytes at or above 0x80 stand for negative offsets.
pub open spec fn sext8(b: u8) -> u16 {
    if b < 0x80 {
        b as u16
    } else {
        (b + 0xFF00) as u16
    }
}

/// Splitting a word into bytes and joining them again is the identity, and a
/// word determines its bytes.
pub proof fn lemma_word16_roundtrip(v: u16)
    ensures
        word16(hi16(v), lo16(v)) == v,
{
}

/// Wrap invariant of the 16-bit counters: incrementing never leaves the
/// type, and one step past `0xFFFF` lands on `0x0000`.
pub proof fn lemma_wrap16_increment(v: u16)
    ensures
        v.wrapping_add(1) == (if v == 0xFFFF {
            0u16
        } else {
            (v + 1) as u16
        }),
{
}

/// Exec form of `hi16`.
pub fn high_byte(v: u16) -> (r: u8)
    ensures
        r == hi16(v),
{
    (v / 256) as u8
}

/// Exec form of `lo16`.
pub fn low_byte(v: u16) -> (r: u8)
    ensures
        r == lo16(v),
{
    (v % 256) as u8
}

/// Exec form of `word16`.
pub fn join_word(hi: u8, lo: u8) -> (r: u16)
    ensures
        r == word16(hi, lo),
{
    (hi as u16) * 256 + (lo as u16)
}

/// Exec form of `sext8`.
pub fn sign_extend(b: u8) -> (r: u16)
    ensures
        r == sext8(b),
{
    if b < 0x80 {
        b as u16
    } else {
        b as u16 + 0xFF00
    }
}

} // verus!
