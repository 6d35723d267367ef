//! UTF-8 encoding of single characters.

use vstd::prelude::*;
use vstd::utf8::encode_scalar;

verus! {

/// The bytes that encode `ch` in UTF-8: one to four of them.
pub fn encode_char(ch: char) -> (bytes: Vec<u8>)
    ensures
        bytes@ == encode_scalar(ch as u32),
        1 <= bytes@.len() <= 4,
{
    let v: u32 = ch as u32;
    let mut bytes: Vec<u8> = Vec::new();
    if v <= 0x7F {
        assert(v & 0x7F <= 0x7F) by (bit_vector);
        bytes.push((v & 0x7F) as u8);
    } else if v <= 0x7FF {
        assert((v >> 6) & 0x1F <= 0x1F) by (bit_vector);
        assert(v & 0x3F <= 0x3F) by (bit_vector);
        bytes.push(0xC0 | ((v >> 6) & 0x1F) as u8);
        bytes.push(0x80 | (v & 0x3F) as u8);
    } else if v <= 0xFFFF {
        assert((v >> 12) & 0x0F <= 0x0F) by (bit_vector);
        assert((v >> 6) & 0x3F <= 0x3F) by (bit_vector);
        assert(v & 0x3F <= 0x3F) by (bit_vector);
        bytes.push(0xE0 | ((v >> 12) & 0x0F) as u8);
        bytes.push(0x80 | ((v >> 6) & 0x3F) as u8);
        bytes.push(0x80 | (v & 0x3F) as u8);
    } else {
        assert((v >> 18) & 0x7 <= 0x7) by (bit_vector);
        assert((v >> 12) & 0x3F <= 0x3F) by (bit_vector);
        assert((v >> 6) & 0x3F <= 0x3F) by (bit_vector);
        assert(v & 0x3F <= 0x3F) by (bit_vector);
        bytes.push(0xF0 | ((v >> 18) & 0x7) as u8);
        bytes.push(0x80 | ((v >> 12) & 0x3F) as u8);
        bytes.push(0x80 | ((v >> 6) & 0x3F) as u8);
        bytes.push(0x80 | (v & 0x3F) as u8);
    }
    assert(bytes@ =~= encode_scalar(v));
    bytes
}

} // verus!
