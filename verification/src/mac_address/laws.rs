//! What holds of MAC address text: which texts name the same address, which
//! texts name none, and that writing and reading undo each other.

use vstd::prelude::*;
use vstd::utf8::*;

use super::validation::{
    is_hex_digit, is_separator, is_separator_position, is_valid_mac_text, MAC_TEXT_LEN,
};
use super::{
    ascii_bytes, hex_upper, hex_value, mac_octets, mac_text, mac_text_value, octet, place,
    text_octet, MAC_MAX,
};

verus! {

/// The upper-case form of a hexadecimal digit.
pub open spec fn upper_hex_digit(b: u8) -> u8 {
    if 0x61 <= b <= 0x66 {
        (b - 0x20) as u8
    } else {
        b
    }
}

/// Two texts of the same length that differ at most in the case of their
/// digits and in which separator they use.
pub open spec fn same_up_to_case_and_separator(a: Seq<u8>, b: Seq<u8>) -> bool {
    &&& a.len() == b.len()
    &&& forall|i: int|
        #![trigger a[i]]
        #![trigger b[i]]
        0 <= i < a.len() && !is_separator_position(i) ==> upper_hex_digit(a[i]) == upper_hex_digit(
            b[i],
        )
}

/// A MAC address text in canonical form: colons, upper-case digits.
pub open spec fn normalized(text: Seq<u8>) -> Seq<u8> {
    Seq::new(
        text.len(),
        |i: int|
            if is_separator_position(i) {
                0x3Au8
            } else {
                upper_hex_digit(text[i])
            },
    )
}

/// A digit stands for the same number in either case.
pub proof fn lemma_hex_value_ignores_case(b: u8)
    requires
        is_hex_digit(b),
    ensures
        is_hex_digit(upper_hex_digit(b)),
        hex_value(upper_hex_digit(b)) == hex_value(b),
        hex_value(b) < 16,
        upper_hex_digit(b) == hex_upper(hex_value(b)) as u8,
{
}

/// The digits of a valid text stand for numbers below sixteen, so each
/// group spells a byte.
pub proof fn lemma_text_octet_bounded(text: Seq<u8>, k: int)
    requires
        is_valid_mac_text(text),
        0 <= k < 6,
    ensures
        text_octet(text, k) < 256,
        is_hex_digit(text[3 * k]),
        is_hex_digit(text[3 * k + 1]),
{
    assert(!is_separator_position(3 * k) && !is_separator_position(3 * k + 1));
}

/// Byte `k` of the address that a valid text spells is what group `k`
/// spells, and the address fits in six bytes.
pub proof fn lemma_octets_of_text_value(text: Seq<u8>)
    requires
        is_valid_mac_text(text),
    ensures
        mac_text_value(text) <= MAC_MAX,
        forall|k: int| 0 <= k < 6 ==> octet(mac_text_value(text), k) == text_octet(text, k),
{
    lemma_text_octet_bounded(text, 0);
    lemma_text_octet_bounded(text, 1);
    lemma_text_octet_bounded(text, 2);
    lemma_text_octet_bounded(text, 3);
    lemma_text_octet_bounded(text, 4);
    lemma_text_octet_bounded(text, 5);
    let b0: u64 = text_octet(text, 0) as u64;
    let b1: u64 = text_octet(text, 1) as u64;
    let b2: u64 = text_octet(text, 2) as u64;
    let b3: u64 = text_octet(text, 3) as u64;
    let b4: u64 = text_octet(text, 4) as u64;
    let b5: u64 = text_octet(text, 5) as u64;
    lemma_octets_of_sum(b0, b1, b2, b3, b4, b5);
}

/// Six bytes, each at its place, add up to a number below 2^48 whose bytes
/// they are.
proof fn lemma_octets_of_sum(b0: u64, b1: u64, b2: u64, b3: u64, b4: u64, b5: u64)
    requires
        b0 < 256,
        b1 < 256,
        b2 < 256,
        b3 < 256,
        b4 < 256,
        b5 < 256,
    ensures
        ({
            let v: nat = (b0 * 0x100_0000_0000 + b1 * 0x1_0000_0000 + b2 * 0x100_0000 + b3 * 0x1_0000
                + b4 * 0x100 + b5) as nat;
            &&& v <= MAC_MAX
            &&& octet(v, 0) == b0
            &&& octet(v, 1) == b1
            &&& octet(v, 2) == b2
            &&& octet(v, 3) == b3
            &&& octet(v, 4) == b4
            &&& octet(v, 5) == b5
        }),
{
    let x: u64 = (b0 * 0x100_0000_0000 + b1 * 0x1_0000_0000 + b2 * 0x100_0000 + b3 * 0x1_0000 + b4
        * 0x100 + b5) as u64;
    assert(x == b0 * 0x100_0000_0000 + b1 * 0x1_0000_0000 + b2 * 0x100_0000 + b3 * 0x1_0000 + b4
        * 0x100 + b5);
    assert(x <= 0xFFFF_FFFF_FFFF);
    assert((x / 0x100_0000_0000) % 256 == b0 && (x / 0x1_0000_0000) % 256 == b1 && (x / 0x100_0000)
        % 256 == b2 && (x / 0x1_0000) % 256 == b3 && (x / 0x100) % 256 == b4 && x % 256 == b5)
        by (bit_vector)
        requires
            b0 < 256,
            b1 < 256,
            b2 < 256,
            b3 < 256,
            b4 < 256,
            b5 < 256,
            x == b0 * 0x100_0000_0000 + b1 * 0x1_0000_0000 + b2 * 0x100_0000 + b3 * 0x1_0000 + b4
                * 0x100 + b5,
    ;
}

/// Texts that differ only in the case of their digits and in their
/// separator spell the same address.
pub proof fn lemma_case_and_separator_do_not_matter(a: Seq<u8>, b: Seq<u8>)
    requires
        is_valid_mac_text(a),
        is_valid_mac_text(b),
        same_up_to_case_and_separator(a, b),
    ensures
        mac_text_value(a) == mac_text_value(b),
{
    assert forall|k: int| 0 <= k < 6 implies text_octet(a, k) == text_octet(b, k) by {
        lemma_text_octet_bounded(a, k);
        lemma_text_octet_bounded(b, k);
        lemma_hex_value_ignores_case(a[3 * k]);
        lemma_hex_value_ignores_case(b[3 * k]);
        lemma_hex_value_ignores_case(a[3 * k + 1]);
        lemma_hex_value_ignores_case(b[3 * k + 1]);
        assert(!is_separator_position(3 * k) && !is_separator_position(3 * k + 1));
    }
}

/// No text of another length than seventeen is a MAC address: neither a
/// truncated address, nor one with anything before or after it.
pub proof fn lemma_wrong_length_is_invalid(text: Seq<u8>)
    requires
        text.len() != MAC_TEXT_LEN,
    ensures
        !is_valid_mac_text(text),
{
}

/// A MAC address with anything added before or after it is no MAC address.
pub proof fn lemma_embedded_is_invalid(before: Seq<u8>, text: Seq<u8>, after: Seq<u8>)
    requires
        is_valid_mac_text(text),
        before.len() + after.len() > 0,
    ensures
        !is_valid_mac_text(before + text + after),
{
}

/// A text with anything but a hexadecimal digit where a digit belongs is no
/// MAC address.
pub proof fn lemma_non_hex_is_invalid(text: Seq<u8>, i: int)
    requires
        0 <= i < text.len(),
        !is_separator_position(i),
        !is_hex_digit(text[i]),
    ensures
        !is_valid_mac_text(text),
{
}

/// A text whose separators are not all the same, or are not `:` or `-`, is
/// no MAC address.
pub proof fn lemma_mixed_separators_are_invalid(text: Seq<u8>, i: int, j: int)
    requires
        0 <= i < text.len(),
        0 <= j < text.len(),
        is_separator_position(i),
        is_separator_position(j),
        text[i] != text[j] || !is_separator(text[i]),
    ensures
        !is_valid_mac_text(text),
{
}

/// The canonical text of an address is ASCII, is a valid MAC address text,
/// and spells that address.
pub proof fn lemma_format_then_parse(v: nat)
    requires
        v <= MAC_MAX,
    ensures
        is_ascii_chars(mac_text(v)),
        encode_utf8(mac_text(v)) == ascii_bytes(mac_text(v)),
        is_valid_mac_text(ascii_bytes(mac_text(v))),
        mac_text_value(ascii_bytes(mac_text(v))) == v,
{
    let chars = mac_text(v);
    let bytes = ascii_bytes(chars);
    assert forall|i: int| 0 <= i < MAC_TEXT_LEN implies ({
        &&& '\0' <= #[trigger] chars[i] <= '\u{7f}'
        &&& if is_separator_position(i) {
            bytes[i] == 0x3A
        } else {
            is_hex_digit(bytes[i])
        }
    }) by {
        lemma_hex_upper_is_digit(octet(v, i / 3) / 16);
        lemma_hex_upper_is_digit(octet(v, i / 3) % 16);
    }
    assert(is_ascii_chars(chars));
    is_ascii_chars_encode_utf8(chars);
    assert(encode_utf8(chars) =~= bytes);
    assert(is_valid_mac_text(bytes));
    assert forall|k: int| 0 <= k < 6 implies text_octet(bytes, k) == octet(v, k) by {
        lemma_hex_upper_is_digit(octet(v, k) / 16);
        lemma_hex_upper_is_digit(octet(v, k) % 16);
        assert((3 * k) / 3 == k && (3 * k + 1) / 3 == k);
        assert(bytes[3 * k] == hex_upper(octet(v, k) / 16) as u8);
        assert(bytes[3 * k + 1] == hex_upper(octet(v, k) % 16) as u8);
    }
    lemma_sum_of_octets(v);
}

/// The upper-case digit for a number below sixteen is a hexadecimal digit
/// that stands for that number.
pub proof fn lemma_hex_upper_is_digit(d: nat)
    requires
        d < 16,
    ensures
        is_hex_digit(hex_upper(d) as u8),
        hex_value(hex_upper(d) as u8) == d,
        '\0' <= hex_upper(d) <= '\u{7f}',
        upper_hex_digit(hex_upper(d) as u8) == hex_upper(d) as u8,
{
}

/// An address below 2^48 is the sum of its six bytes, each at its place.
pub proof fn lemma_sum_of_octets(v: nat)
    requires
        v <= MAC_MAX,
    ensures
        v == octet(v, 0) * place(0) + octet(v, 1) * place(1) + octet(v, 2) * place(2) + octet(v, 3)
            * place(3) + octet(v, 4) * place(4) + octet(v, 5),
{
    let x: u64 = v as u64;
    assert(x == ((x / 0x100_0000_0000) % 256) * 0x100_0000_0000 + ((x / 0x1_0000_0000) % 256)
        * 0x1_0000_0000 + ((x / 0x100_0000) % 256) * 0x100_0000 + ((x / 0x1_0000) % 256) * 0x1_0000
        + ((x / 0x100) % 256) * 0x100 + x % 256) by (bit_vector)
        requires
            x <= 0xFFFF_FFFF_FFFF,
    ;
}

/// Two addresses with the same six bytes are the same address.
pub proof fn lemma_same_octets_same_address(v: nat, w: nat)
    requires
        v <= MAC_MAX,
        w <= MAC_MAX,
    ensures
        (mac_octets(v) == mac_octets(w)) <==> v == w,
{
    if mac_octets(v) == mac_octets(w) {
        assert forall|k: int| 0 <= k < 6 implies octet(v, k) == octet(w, k) by {
            assert(mac_octets(v)[k] == mac_octets(w)[k]);
        }
        lemma_sum_of_octets(v);
        lemma_sum_of_octets(w);
    }
}

/// Reading a valid text and writing the address again gives the text in
/// canonical form: upper-case digits, colons.
pub proof fn lemma_parse_then_format(text: Seq<u8>)
    requires
        is_valid_mac_text(text),
    ensures
        mac_text_value(text) <= MAC_MAX,
        ascii_bytes(mac_text(mac_text_value(text))) == normalized(text),
        is_valid_mac_text(normalized(text)),
        mac_text_value(normalized(text)) == mac_text_value(text),
{
    let v: nat = mac_text_value(text);
    lemma_octets_of_text_value(text);
    let out = ascii_bytes(mac_text(v));
    assert forall|i: int| 0 <= i < MAC_TEXT_LEN implies #[trigger] out[i] == normalized(text)[i] by {
        if !is_separator_position(i) {
            let k: int = i / 3;
            lemma_text_octet_bounded(text, k);
            lemma_hex_value_ignores_case(text[3 * k]);
            lemma_hex_value_ignores_case(text[3 * k + 1]);
            assert(i == 3 * k || i == 3 * k + 1);
            assert(octet(v, k) == text_octet(text, k));
            assert(text_octet(text, k) / 16 == hex_value(text[3 * k]));
            assert(text_octet(text, k) % 16 == hex_value(text[3 * k + 1]));
        }
    }
    assert(out =~= normalized(text));
    lemma_format_then_parse(v);
}

} // verus!
