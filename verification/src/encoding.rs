//! Byte counts versus character counts of UTF-8 text.
//!
//! Rust strings are UTF-8 encoded, so the number of encoded bytes
//! and the number of characters of a value are distinct quantities.
//! This module exposes both counts, the per-character encoding
//! width, and the laws relating the two counts.

use vstd::prelude::*;
use vstd::string::StrSliceExecFns;
use vstd::utf8::{char_is_scalar, encode_scalar, encode_utf8, is_ascii_chars, is_ascii_chars_encode_utf8};

verus! {

/// The number of bytes in the UTF-8 encoding of a character sequence.
pub open spec fn byte_len(s: Seq<char>) -> usize {
    encode_utf8(s).len() as usize
}

/// The width in bytes of one character's UTF-8 encoding.
pub open spec fn spec_utf8_width(c: char) -> usize {
    encode_scalar(c as u32).len() as usize
}

/// The number of bytes the given character occupies in UTF-8,
/// between one and four.
pub fn utf8_width(c: char) -> (r: usize)
    ensures
        r == spec_utf8_width(c),
        1 <= r <= 4,
{
    proof {
        char_is_scalar(c);
    }
    let u = c as u32;
    if u < 0x80 {
        1
    } else if u < 0x800 {
        2
    } else if u < 0x10000 {
        3
    } else {
        4
    }
}

/// The number of characters in the given text.
pub fn char_count(s: &str) -> (r: usize)
    ensures
        r == s@.len(),
{
    s.unicode_len()
}

/// The number of encoded bytes in the given text.
pub fn byte_count(s: &str) -> (r: usize)
    ensures
        r == byte_len(s@),
{
    s.len()
}

/// A character sequence never has more characters than encoded
/// bytes; the two counts coincide exactly when every character is
/// ASCII, and diverge strictly as soon as one character needs a
/// multi-byte encoding.
pub proof fn lemma_byte_count_vs_char_count(s: Seq<char>)
    ensures
        encode_utf8(s).len() >= s.len(),
        is_ascii_chars(s) ==> encode_utf8(s).len() == s.len(),
        (exists|i: int| 0 <= i < s.len() && spec_utf8_width(#[trigger] s[i]) > 1)
            ==> encode_utf8(s).len() > s.len(),
    decreases s.len(),
{
    if is_ascii_chars(s) {
        is_ascii_chars_encode_utf8(s);
    }
    if s.len() > 0 {
        char_is_scalar(s[0]);
        lemma_byte_count_vs_char_count(s.drop_first());
        assert(encode_utf8(s) == encode_scalar(s[0] as u32) + encode_utf8(s.drop_first()));
        assert(encode_scalar(s[0] as u32).len() >= 1);
        if exists|i: int| 0 <= i < s.len() && spec_utf8_width(#[trigger] s[i]) > 1 {
            let i = choose|i: int| 0 <= i < s.len() && spec_utf8_width(#[trigger] s[i]) > 1;
            if i == 0 {
                assert(encode_scalar(s[0] as u32).len() >= 2);
            } else {
                assert(s.drop_first()[i - 1] == s[i]);
                assert(exists|j: int|
                    0 <= j < s.drop_first().len() && spec_utf8_width(
                        #[trigger] s.drop_first()[j],
                    ) > 1);
            }
        }
    }
}

} // verus!
