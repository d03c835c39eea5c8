//! The bytes that a typed character is sent as.

use vstd::prelude::*;
use vstd::utf8::{
    encode_scalar, has_width_1_encoding, has_width_2_encoding, has_width_3_encoding,
    has_width_4_encoding,
};

verus! {

/// The number of bytes in the UTF-8 form of a character.
pub open spec fn utf8_len_of(c: char) -> nat {
    if has_width_1_encoding(c as u32) {
        1
    } else if has_width_2_encoding(c as u32) {
        2
    } else if has_width_3_encoding(c as u32) {
        3
    } else {
        4
    }
}

/// The UTF-8 form of a character.
pub open spec fn utf8_of(c: char) -> Seq<u8> {
    encode_scalar(c as u32)
}

/// The UTF-8 form of a character has the length that `utf8_len_of` gives,
/// and a character below 128 is sent as the one byte of its own number.
pub proof fn lemma_utf8_len(c: char)
    ensures
        utf8_of(c).len() == utf8_len_of(c),
        1 <= utf8_len_of(c) <= 4,
        (c as u32) < 0x80 ==> utf8_of(c) == seq![c as u8],
        (c as u32) >= 0x80 ==> utf8_of(c)[0] >= 0x80,
{
    let v = c as u32;
    vstd::utf8::char_is_scalar(c);
    if v < 0x80 {
        assert((v & 0x7F) as u8 == v as u8) by (bit_vector)
            requires
                v < 0x80,
        ;
        assert(utf8_of(c) =~= seq![c as u8]);
    } else {
        let b2 = ((v >> 6) & 0x1F) as u8;
        let b3 = ((v >> 12) & 0x0F) as u8;
        let b4 = ((v >> 18) & 0x7) as u8;
        assert(0xC0u8 | b2 >= 0x80) by (bit_vector);
        assert(0xE0u8 | b3 >= 0x80) by (bit_vector);
        assert(0xF0u8 | b4 >= 0x80) by (bit_vector);
    }
}

/// Encodes a character in UTF-8, the form in which it is sent.
pub fn encode_utf8(c: char) -> (bytes: Vec<u8>)
    ensures
        bytes@ == utf8_of(c),
        bytes.len() == utf8_len_of(c),
{
    let v: u32 = c as u32;
    let mut bytes: Vec<u8> = Vec::new();
    proof {
        vstd::utf8::char_is_scalar(c);
        assert(v & 0x7F <= 0xFF) by (bit_vector);
        assert(v & 0x3F <= 0xFF) by (bit_vector);
        assert((v >> 6) & 0x1F <= 0xFF) by (bit_vector);
        assert((v >> 6) & 0x3F <= 0xFF) by (bit_vector);
        assert((v >> 12) & 0x0F <= 0xFF) by (bit_vector);
        assert((v >> 12) & 0x3F <= 0xFF) by (bit_vector);
        assert((v >> 18) & 0x7 <= 0xFF) by (bit_vector);
    }
    if v <= 0x7F {
        bytes.push((v & 0x7F) as u8);
    } else if v <= 0x7FF {
        bytes.push(0xC0 | ((v >> 6) & 0x1F) as u8);
        bytes.push(0x80 | (v & 0x3F) as u8);
    } else if v <= 0xFFFF {
        bytes.push(0xE0 | ((v >> 12) & 0x0F) as u8);
        bytes.push(0x80 | ((v >> 6) & 0x3F) as u8);
        bytes.push(0x80 | (v & 0x3F) as u8);
    } else {
        bytes.push(0xF0 | ((v >> 18) & 0x7) as u8);
        bytes.push(0x80 | ((v >> 12) & 0x3F) as u8);
        bytes.push(0x80 | ((v >> 6) & 0x3F) as u8);
        bytes.push(0x80 | (v & 0x3F) as u8);
    }
    assert(bytes@ =~= utf8_of(c));
    bytes
}

} // verus!
