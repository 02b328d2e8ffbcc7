//! The grammar of MAC address text: six groups of two hexadecimal digits,
//! separated throughout by `:` or throughout by `-`, and nothing else.

use vstd::prelude::*;

verus! {

/// Number of bytes in a well-formed MAC address text.
pub const MAC_TEXT_LEN: usize = 17;

/// `b` is an ASCII hexadecimal digit of either case.
pub open spec fn is_hex_digit(b: u8) -> bool {
    ||| 0x30 <= b <= 0x39
    ||| 0x41 <= b <= 0x46
    ||| 0x61 <= b <= 0x66
}

/// `b` is one of the two group separators, `:` or `-`.
pub open spec fn is_separator(b: u8) -> bool {
    b == 0x3A || b == 0x2D
}

/// Position `i` of a MAC address text holds a separator rather than a digit.
pub open spec fn is_separator_position(i: int) -> bool {
    i % 3 == 2
}

/// The text is a MAC address: seventeen bytes, a separator at every third
/// position and the same one each time, hexadecimal digits everywhere else.
pub open spec fn is_valid_mac_text(text: Seq<u8>) -> bool {
    &&& text.len() == MAC_TEXT_LEN
    &&& is_separator(text[2])
    &&& forall|i: int|
        #![trigger text[i]]
        0 <= i < MAC_TEXT_LEN ==> if is_separator_position(i) {
            text[i] == text[2]
        } else {
            is_hex_digit(text[i])
        }
}

pub fn byte_is_hex_digit(b: u8) -> (r: bool)
    ensures
        r == is_hex_digit(b),
{
    (0x30 <= b && b <= 0x39) || (0x41 <= b && b <= 0x46) || (0x61 <= b && b <= 0x66)
}

pub fn byte_is_separator(b: u8) -> (r: bool)
    ensures
        r == is_separator(b),
{
    b == 0x3A || b == 0x2D
}

/// Decides whether `text` is exactly one MAC address.
pub fn text_is_valid_mac(text: &[u8]) -> (r: bool)
    ensures
        r == is_valid_mac_text(text@),
{
    if text.len() != MAC_TEXT_LEN {
        return false;
    }
    let separator: u8 = text[2];
    if !byte_is_separator(separator) {
        return false;
    }
    let mut i: usize = 0;
    while i < MAC_TEXT_LEN
        invariant
            i <= MAC_TEXT_LEN,
            text@.len() == MAC_TEXT_LEN,
            separator == text@[2],
            forall|j: int|
                #![trigger text@[j]]
                0 <= j < i ==> if is_separator_position(j) {
                    text@[j] == text@[2]
                } else {
                    is_hex_digit(text@[j])
                },
        decreases MAC_TEXT_LEN - i,
    {
        let b: u8 = text[i];
        if i % 3 == 2 {
            if b != separator {
                assert(is_separator_position(i as int));
                return false;
            }
        } else if !byte_is_hex_digit(b) {
            assert(!is_separator_position(i as int));
            return false;
        }
        i += 1;
    }
    true
}

} // verus!
