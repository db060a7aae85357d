//! Tolerant UTF-8 decoding of raw path-component bytes.
//!
//! A multi-byte sequence starts at any byte of value 128 or more; its total
//! width is read from that leading byte alone, and the following bytes are
//! absorbed as continuation bytes whatever their value. The decoded value is
//! assembled from the data bits of each byte; whether it is a legal Unicode
//! scalar is judged later by the transliteration table.

use vstd::prelude::*;

verus! {

/// Width in bytes of the sequence started by the leading byte `b`
/// (which must be 128 or more; lower bytes stand alone).
pub open spec fn spec_lead_width(b: u8) -> int {
    if b >= 240 {
        4
    } else if b >= 224 {
        3
    } else {
        2
    }
}

/// Value assembled from a two-byte sequence: the low 5 bits of the leading
/// byte followed by the low 6 bits of the continuation byte.
pub open spec fn spec_decode_two(b0: u8, b1: u8) -> u32 {
    ((b0 as u32 & 0x1f) << 6) | (b1 as u32 & 0x3f)
}

/// Value assembled from a three-byte sequence.
pub open spec fn spec_decode_three(b0: u8, b1: u8, b2: u8) -> u32 {
    ((b0 as u32 & 0x1f) << 12) | ((b1 as u32 & 0x3f) << 6) | (b2 as u32 & 0x3f)
}

/// Value assembled from a four-byte sequence: the low 3 bits of the leading
/// byte and three 6-bit continuation groups.
pub open spec fn spec_decode_four(b0: u8, b1: u8, b2: u8, b3: u8) -> u32 {
    ((b0 as u32 & 0x07) << 18) | ((b1 as u32 & 0x3f) << 12) | ((b2 as u32 & 0x3f) << 6) | (
    b3 as u32 & 0x3f)
}

/// Width in bytes of the sequence started by `b`.
pub fn lead_width(b: u8) -> (n: usize)
    requires
        b >= 128,
    ensures
        n == spec_lead_width(b),
        2 <= n <= 4,
{
    if b >= 240 {
        4
    } else if b >= 224 {
        3
    } else {
        2
    }
}

/// Assemble the value of a two-byte sequence.
pub fn convert_two_to_u32(first_byte: u8, second_byte: u8) -> (r: u32)
    ensures
        r == spec_decode_two(first_byte, second_byte),
{
    ((first_byte as u32 & 0b0001_1111) << 6u32) | (second_byte as u32 & 0b0011_1111)
}

/// Assemble the value of a three-byte sequence.
pub fn convert_three_to_u32(first_byte: u8, second_byte: u8, third_byte: u8) -> (r: u32)
    ensures
        r == spec_decode_three(first_byte, second_byte, third_byte),
{
    ((first_byte as u32 & 0b0001_1111) << 12u32) | ((second_byte as u32 & 0b0011_1111) << 6u32) | (
    third_byte as u32 & 0b0011_1111)
}

/// Assemble the value of a four-byte sequence.
pub fn convert_four_to_u32(
    first_byte: u8,
    second_byte: u8,
    third_byte: u8,
    fourth_byte: u8,
) -> (r: u32)
    ensures
        r == spec_decode_four(first_byte, second_byte, third_byte, fourth_byte),
{
    ((first_byte as u32 & 0b0000_0111) << 18u32) | ((second_byte as u32 & 0b0011_1111) << 12u32) | (
    (third_byte as u32 & 0b0011_1111) << 6u32) | (fourth_byte as u32 & 0b0011_1111)
}

} // verus!
