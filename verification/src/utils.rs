//! Checks on the shape of an account address.

use vstd::prelude::*;
use vstd::utf8::*;

verus! {

/// The text begins with the two characters `0x`.
pub open spec fn has_hex_prefix(s: Seq<char>) -> bool {
    s.len() >= 2 && s[0] == '0' && s[1] == 'x'
}

/// An account address as the endpoints accept it: the prefix `0x`, and 42
/// bytes in all when written as UTF-8. Nothing is asked of the 40 bytes
/// after the prefix.
pub open spec fn is_valid_address(s: Seq<char>) -> bool {
    has_hex_prefix(s) && encode_utf8(s).len() == 42
}

proof fn lemma_single_byte_scalar(c: u32)
    by (bit_vector)
    requires
        c <= 0x7F,
    ensures
        (c & 0x7F) as u8 as u32 == c,
        (c & 0x7F) as u8 <= 0x7Fu8,
{
}

proof fn lemma_lead_of_two(x: u8)
    by (bit_vector)
    ensures
        0xC0u8 | x >= 0xC0u8,
{
}

proof fn lemma_lead_of_three(x: u8)
    by (bit_vector)
    ensures
        0xE0u8 | x >= 0xE0u8,
{
}

proof fn lemma_lead_of_four(x: u8)
    by (bit_vector)
    ensures
        0xF0u8 | x >= 0xF0u8,
{
}

/// The encoding of a text opens with a given ASCII byte exactly when the
/// text opens with the character of that code; the rest of the encoding is
/// then the encoding of the rest of the text.
proof fn lemma_leading_ascii_byte(chars: Seq<char>, byte: u8)
    requires
        byte <= 0x7F,
    ensures
        (encode_utf8(chars).len() > 0 && encode_utf8(chars)[0] == byte) <==> (chars.len() > 0
            && chars[0] as u32 == byte as u32),
        chars.len() > 0 && chars[0] as u32 == byte as u32 ==> encode_utf8(chars) == seq![byte]
            + encode_utf8(chars.drop_first()),
{
    if chars.len() > 0 {
        let c = chars[0] as u32;
        let head = encode_scalar(c);
        let tail = encode_utf8(chars.drop_first());
        assert(encode_utf8(chars) == head + tail);
        if has_width_1_encoding(c) {
            lemma_single_byte_scalar(c);
            assert(head == seq![leading_byte_width_1(c)]);
            assert((head + tail)[0] == leading_byte_width_1(c));
            if c == byte as u32 {
                assert(head + tail =~= seq![byte] + tail);
            }
        } else if has_width_2_encoding(c) {
            lemma_lead_of_two(((c >> 6) & 0x1F) as u8);
            assert((head + tail)[0] == leading_byte_width_2(c));
        } else if has_width_3_encoding(c) {
            lemma_lead_of_three(((c >> 12) & 0x0F) as u8);
            assert((head + tail)[0] == leading_byte_width_3(c));
        } else {
            lemma_lead_of_four(((c >> 18) & 0x7) as u8);
            assert((head + tail)[0] == leading_byte_width_4(c));
        }
    }
}

/// The encoding of a text opens with the bytes of `0x` exactly when the text
/// opens with those two characters.
proof fn lemma_hex_prefix_bytes(s: Seq<char>)
    ensures
        has_hex_prefix(s) <==> (encode_utf8(s).len() >= 2 && encode_utf8(s)[0] == 0x30
            && encode_utf8(s)[1] == 0x78),
{
    assert('0' as u32 == 0x30 && 'x' as u32 == 0x78);
    if s.len() > 0 {
        char_u32_cast(s[0], s[0] as u32);
    }
    if s.len() > 1 {
        char_u32_cast(s[1], s[1] as u32);
    }
    lemma_leading_ascii_byte(s, 0x30);
    if s.len() > 0 && s[0] as u32 == 0x30 {
        let rest = s.drop_first();
        lemma_leading_ascii_byte(rest, 0x78);
        assert(encode_utf8(s) == seq![0x30u8] + encode_utf8(rest));
        if encode_utf8(rest).len() > 0 {
            assert(encode_utf8(s)[1] == encode_utf8(rest)[0]);
        }
        if rest.len() > 0 {
            assert(rest[0] == s[1]);
        }
    }
}

/// For a text of ASCII characters the 42 bytes are 42 characters: it is a
/// valid address exactly when it is 42 characters long and opens with
/// `0x`, whatever the other 40 characters are.
pub proof fn lemma_valid_ascii_address(s: Seq<char>)
    requires
        is_ascii_chars(s),
    ensures
        is_valid_address(s) <==> (s.len() == 42 && s[0] == '0' && s[1] == 'x'),
{
    is_ascii_chars_encode_utf8(s);
}

/// Whether `address` has the shape of an account address: the prefix `0x`
/// and a length of 42 bytes.
pub fn is_valid_ethereum_address(address: &str) -> (valid: bool)
    ensures
        valid == is_valid_address(address@),
{
    proof {
        lemma_hex_prefix_bytes(address@);
    }
    let bytes = address.as_bytes();
    if bytes.len() != 42 {
        return false;
    }
    bytes[0] == 0x30u8 && bytes[1] == 0x78u8
}

} // verus!
