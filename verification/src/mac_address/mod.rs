//! The six-byte MAC address and its text form.

use vstd::prelude::*;
use vstd::string::*;

use crate::text::digit_char;

pub mod laws;
pub mod validation;

use validation::{
    is_hex_digit, is_separator_position, is_valid_mac_text, text_is_valid_mac, MAC_TEXT_LEN,
};

verus! {

/// Largest number that six bytes hold.
pub const MAC_MAX: u64 = 0xFFFF_FFFF_FFFF;

/// Weight of group `k` of a MAC address, the first group being the most
/// significant.
pub open spec fn place(k: int) -> nat {
    if k == 0 {
        0x100_0000_0000
    } else if k == 1 {
        0x1_0000_0000
    } else if k == 2 {
        0x100_0000
    } else if k == 3 {
        0x1_0000
    } else if k == 4 {
        0x100
    } else {
        1
    }
}

/// Byte `k` (0 to 5, most significant first) of the address `v`.
pub open spec fn octet(v: nat, k: int) -> nat {
    (v / place(k)) % 256
}

/// What a hexadecimal digit stands for.
pub open spec fn hex_value(b: u8) -> nat {
    if 0x30 <= b <= 0x39 {
        (b - 0x30) as nat
    } else if 0x41 <= b <= 0x46 {
        (b - 0x41 + 10) as nat
    } else {
        (b - 0x61 + 10) as nat
    }
}

/// The byte that group `k` of a MAC address text spells.
pub open spec fn text_octet(text: Seq<u8>, k: int) -> nat {
    hex_value(text[3 * k]) * 16 + hex_value(text[3 * k + 1])
}

/// The address that a MAC address text spells.
pub open spec fn mac_text_value(text: Seq<u8>) -> nat {
    text_octet(text, 0) * place(0) + text_octet(text, 1) * place(1) + text_octet(text, 2) * place(
        2,
    ) + text_octet(text, 3) * place(3) + text_octet(text, 4) * place(4) + text_octet(text, 5)
}

/// The upper-case hexadecimal digit for `d`.
pub open spec fn hex_upper(d: nat) -> char {
    if d < 10 {
        digit_char(d)
    } else if d == 10 {
        'A'
    } else if d == 11 {
        'B'
    } else if d == 12 {
        'C'
    } else if d == 13 {
        'D'
    } else if d == 14 {
        'E'
    } else {
        'F'
    }
}

/// Character `i` of the canonical text of the address `v`.
pub open spec fn mac_text_char(v: nat, i: int) -> char {
    if i % 3 == 2 {
        ':'
    } else if i % 3 == 0 {
        hex_upper(octet(v, i / 3) / 16)
    } else {
        hex_upper(octet(v, i / 3) % 16)
    }
}

/// The canonical text of the address `v`: six groups of two upper-case
/// hexadecimal digits, separated by colons.
pub open spec fn mac_text(v: nat) -> Seq<char> {
    Seq::new(MAC_TEXT_LEN as nat, |i: int| mac_text_char(v, i))
}

/// The bytes of a text of ASCII characters.
pub open spec fn ascii_bytes(text: Seq<char>) -> Seq<u8> {
    Seq::new(text.len(), |i: int| text[i] as u8)
}

/// The six bytes of the address `v`, most significant first.
pub open spec fn mac_octets(v: nat) -> Seq<u8> {
    Seq::new(6, |k: int| octet(v, k) as u8)
}

/// A MAC address: a number below 2^48, whose six bytes are the address.
#[derive(Copy, Clone, Debug, PartialEq, Eq, Structural)]
pub struct MacAddress(u64);

impl View for MacAddress {
    type V = nat;

    closed spec fn view(&self) -> nat {
        self.0 as nat
    }
}

/// Why a text was not taken for a MAC address.
#[derive(Debug, PartialEq, Eq)]
pub enum MacParseError {
    /// The text does not match the MAC address grammar; it is handed back.
    InvalidMac { invalid_mac: String },
}

impl MacAddress {
    #[verifier::type_invariant]
    spec fn fits_in_six_bytes(self) -> bool {
        self.0 <= MAC_MAX
    }

    /// The address with the number `n`.
    pub fn new(n: u64) -> (r: MacAddress)
        requires
            n <= MAC_MAX,
        ensures
            r@ == n,
    {
        MacAddress(n)
    }

    /// The address as a number.
    pub fn as_u64(&self) -> (r: u64)
        ensures
            r == self@,
            r <= MAC_MAX,
    {
        proof {
            use_type_invariant(self);
        }
        self.0
    }

    /// The address as eight bytes, most significant first: two zero bytes,
    /// then the six bytes of the address.
    pub fn as_bytes(&self) -> (r: [u8; 8])
        ensures
            r@ == seq![0u8, 0u8] + mac_octets(self@),
    {
        proof {
            use_type_invariant(self);
        }
        let v: u64 = self.0;
        let r: [u8; 8] = [
            0u8,
            0u8,
            (v / 0x100_0000_0000 % 256) as u8,
            (v / 0x1_0000_0000 % 256) as u8,
            (v / 0x100_0000 % 256) as u8,
            (v / 0x1_0000 % 256) as u8,
            (v / 0x100 % 256) as u8,
            (v % 256) as u8,
        ];
        proof {
            let want = seq![0u8, 0u8] + mac_octets(self@);
            assert(want.len() == 8);
            assert(r@[0] == want[0] && r@[1] == want[1]);
            assert(r@[2] == octet(self@, 0) && want[2] == mac_octets(self@)[0]);
            assert(r@[3] == octet(self@, 1) && want[3] == mac_octets(self@)[1]);
            assert(r@[4] == octet(self@, 2) && want[4] == mac_octets(self@)[2]);
            assert(r@[5] == octet(self@, 3) && want[5] == mac_octets(self@)[3]);
            assert(r@[6] == octet(self@, 4) && want[6] == mac_octets(self@)[4]);
            assert(r@[7] == octet(self@, 5) && want[7] == mac_octets(self@)[5]);
            assert(r@ =~= want);
        }
        r
    }

    /// The six bytes of the address, most significant first.
    pub fn octets(&self) -> (r: [u8; 6])
        ensures
            r@ == mac_octets(self@),
    {
        let b: [u8; 8] = self.as_bytes();
        let r: [u8; 6] = [b[2], b[3], b[4], b[5], b[6], b[7]];
        proof {
            let all = seq![0u8, 0u8] + mac_octets(self@);
            assert forall|k: int| 0 <= k < 6 implies r@[k] == mac_octets(self@)[k] by {
                assert(all[k + 2] == mac_octets(self@)[k]);
            }
            assert(r@ =~= mac_octets(self@));
        }
        r
    }

    /// Whether this and `other` are the same address, byte for byte.
    pub fn equals(&self, other: &MacAddress) -> (r: bool)
        ensures
            r == (self@ == other@),
    {
        proof {
            use_type_invariant(self);
            use_type_invariant(other);
            laws::lemma_same_octets_same_address(self@, other@);
        }
        mac_eq_simd(&self.octets(), &other.octets())
    }

    /// Reads a MAC address from the bytes of its text. The text must be
    /// exactly one address: see [`is_valid_mac_text`].
    pub fn from_bytes(text: &[u8]) -> (r: Option<MacAddress>)
        ensures
            r is Some <==> is_valid_mac_text(text@),
            r matches Some(m) ==> m@ == mac_text_value(text@),
    {
        if !text_is_valid_mac(text) {
            return None;
        }
        let b0: u64 = group_value(text, 0);
        let b1: u64 = group_value(text, 1);
        let b2: u64 = group_value(text, 2);
        let b3: u64 = group_value(text, 3);
        let b4: u64 = group_value(text, 4);
        let b5: u64 = group_value(text, 5);
        let n: u64 = b0 * 0x100_0000_0000 + b1 * 0x1_0000_0000 + b2 * 0x100_0000 + b3 * 0x1_0000
            + b4 * 0x100 + b5;
        Some(MacAddress(n))
    }

    /// Reads a MAC address from text. A text that is not exactly one address
    /// comes back in the error.
    pub fn from_str(input: &str) -> (r: Result<MacAddress, MacParseError>)
        ensures
            r is Ok <==> is_valid_mac_text(input.spec_bytes()),
            r matches Ok(m) ==> m@ == mac_text_value(input.spec_bytes()),
            r matches Err(MacParseError::InvalidMac { invalid_mac }) ==> invalid_mac@ == input@,
    {
        match MacAddress::from_bytes(input.as_bytes()) {
            Some(m) => Ok(m),
            None => Err(MacParseError::InvalidMac { invalid_mac: String::from_str(input) }),
        }
    }

    /// The canonical text of the address, such as `00:1A:2B:3C:4D:5E`.
    pub fn to_string(&self) -> (r: String)
        ensures
            r@ == mac_text(self@),
    {
        let bytes: [u8; 8] = self.as_bytes();
        let mut out: String = String::new();
        let mut k: usize = 0;
        while k < 6
            invariant
                k <= 6,
                bytes@ == seq![0u8, 0u8] + mac_octets(self@),
                out@ == mac_text(self@).subrange(0, if k < 6 { 3 * k } else { 17int }),
            decreases 6 - k,
        {
            let b: u8 = bytes[k + 2];
            assert(b == mac_octets(self@)[k as int]);
            out.append(hex_str(b / 16));
            out.append(hex_str(b % 16));
            if k < 5 {
                proof {
                    reveal_strlit(":");
                }
                out.append(":");
            }
            k += 1;
            assert(out@ =~= mac_text(self@).subrange(0, if k < 6 { 3 * k } else { 17int }));
        }
        assert(out@ =~= mac_text(self@));
        out
    }
}

impl Default for MacAddress {
    /// The address of six zero bytes.
    fn default() -> (r: MacAddress)
        ensures
            r@ == 0,
    {
        MacAddress(0)
    }
}

impl std::str::FromStr for MacAddress {
    type Err = MacParseError;

    fn from_str(input: &str) -> (r: Result<MacAddress, MacParseError>)
        ensures
            r is Ok <==> is_valid_mac_text(input.spec_bytes()),
            r matches Ok(m) ==> m@ == mac_text_value(input.spec_bytes()),
            r matches Err(MacParseError::InvalidMac { invalid_mac }) ==> invalid_mac@ == input@,
    {
        MacAddress::from_str(input)
    }
}

impl vstd::std_specs::convert::TryFromSpecImpl<&str> for MacAddress {
    open spec fn obeys_try_from_spec() -> bool {
        false
    }

    open spec fn try_from_spec(v: &str) -> Result<MacAddress, MacParseError> {
        arbitrary()
    }
}

impl std::convert::TryFrom<&str> for MacAddress {
    type Error = MacParseError;

    fn try_from(value: &str) -> (r: Result<MacAddress, MacParseError>)
        ensures
            r is Ok <==> is_valid_mac_text(value.spec_bytes()),
            r matches Ok(m) ==> m@ == mac_text_value(value.spec_bytes()),
            r matches Err(MacParseError::InvalidMac { invalid_mac }) ==> invalid_mac@ == value@,
    {
        MacAddress::from_str(value)
    }
}

/// Whether two addresses, given as six bytes each, are the same.
pub fn mac_eq_simd(mac_to_search: &[u8; 6], other: &[u8; 6]) -> (r: bool)
    ensures
        r == (mac_to_search@ == other@),
{
    let mut i: usize = 0;
    while i < 6
        invariant
            i <= 6,
            forall|j: int| 0 <= j < i ==> mac_to_search@[j] == other@[j],
        decreases 6 - i,
    {
        if mac_to_search[i] != other[i] {
            return false;
        }
        i += 1;
    }
    assert(mac_to_search@ =~= other@);
    true
}

/// What the hexadecimal digit `b` stands for.
fn hex_digit_value(b: u8) -> (r: u8)
    requires
        is_hex_digit(b),
    ensures
        r == hex_value(b),
        r < 16,
{
    if b <= 0x39 {
        b - 0x30
    } else if b <= 0x46 {
        b - 0x41 + 10
    } else {
        b - 0x61 + 10
    }
}

/// The byte that group `k` of a MAC address text spells.
fn group_value(text: &[u8], k: usize) -> (r: u64)
    requires
        is_valid_mac_text(text@),
        k < 6,
    ensures
        r == text_octet(text@, k as int),
        r < 256,
{
    assert(!is_separator_position(3 * k) && !is_separator_position(3 * k + 1));
    let hi: u8 = hex_digit_value(text[3 * k]);
    let lo: u8 = hex_digit_value(text[3 * k + 1]);
    (hi as u64) * 16 + (lo as u64)
}

/// The one-character text of the upper-case hexadecimal digit for `d`.
fn hex_str(d: u8) -> (r: &'static str)
    requires
        d < 16,
    ensures
        r@ == seq![hex_upper(d as nat)],
{
    if d < 10 {
        crate::text::digit_str(d)
    } else {
        proof {
            reveal_strlit("A");
            reveal_strlit("B");
            reveal_strlit("C");
            reveal_strlit("D");
            reveal_strlit("E");
            reveal_strlit("F");
        }
        let r: &'static str = if d == 10 {
            "A"
        } else if d == 11 {
            "B"
        } else if d == 12 {
            "C"
        } else if d == 13 {
            "D"
        } else if d == 14 {
            "E"
        } else {
            "F"
        };
        assert(r@ =~= seq![hex_upper(d as nat)]);
        r
    }
}

} // verus!
