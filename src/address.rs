use std::str::FromStr;
use vstd::prelude::*;

verus! {

/// A hexadecimal digit, in either case.
pub open spec fn is_hex_digit(c: char) -> bool {
    ('0' <= c && c <= '9') || ('a' <= c && c <= 'f') || ('A' <= c && c <= 'F')
}

/// The value of a hexadecimal digit.
pub open spec fn hex_value(c: char) -> int {
    if '0' <= c && c <= '9' {
        c as int - '0' as int
    } else if 'a' <= c && c <= 'f' {
        c as int - 'a' as int + 10
    } else {
        c as int - 'A' as int + 10
    }
}

/// Blank characters that a hexadecimal address text may hold between digits.
pub open spec fn is_hex_blank(c: char) -> bool {
    c == ' ' || c == '\r' || c == '\n' || c == '\t'
}

/// The text without one leading `0x`, if it has one.
pub open spec fn strip_hex_prefix(s: Seq<char>) -> Seq<char> {
    if s.len() >= 2 && s[0] == '0' && s[1] == 'x' {
        s.subrange(2, s.len() as int)
    } else {
        s
    }
}

/// The characters of an address text that count as digits.
pub open spec fn address_digits(s: Seq<char>) -> Seq<char> {
    strip_hex_prefix(s).filter(|c: char| !is_hex_blank(c))
}

/// An address text: forty hexadecimal digits, after an optional `0x` and
/// with blanks ignored.
pub open spec fn is_address_text(s: Seq<char>) -> bool {
    let d = address_digits(s);
    d.len() == 40 && forall|i: int| 0 <= i < 40 ==> is_hex_digit(#[trigger] d[i])
}

/// Byte `i` of the address that an address text spells, big endian.
pub open spec fn address_byte(s: Seq<char>, i: int) -> int {
    let d = address_digits(s);
    hex_value(d[2 * i]) * 16 + hex_value(d[2 * i + 1])
}

/// Whether `bytes` are the twenty bytes that the address text `s` spells.
pub open spec fn spells_address(s: Seq<char>, bytes: Seq<u8>) -> bool {
    &&& bytes.len() == 20
    &&& forall|i: int| 0 <= i < 20 ==> #[trigger] bytes[i] as int == address_byte(s, i)
}

/// A 20-byte contract address.
#[derive(Clone, Copy, Debug, PartialEq, Eq)]
pub struct Address {
    pub bytes: [u8; 20],
}

/// Relies on `<ethereum_types::H160 as FromStr>::from_str` (fixed-hash): it drops
/// one leading `0x`, skips blanks, and accepts exactly forty hexadecimal
/// digits, read two per byte in big-endian order.
#[verifier::external_body]
fn parse_h160(s: &str) -> (r: Option<[u8; 20]>)
    ensures
        r.is_some() == is_address_text(s@),
        r.is_some() ==> spells_address(s@, r.unwrap()@),
{
    ethereum_types::H160::from_str(s).ok().map(|h| h.0)
}

/// Parses a contract address from its hexadecimal text.
pub fn parse_address(s: &str) -> (r: Option<Address>)
    ensures
        r.is_some() == is_address_text(s@),
        r.is_some() ==> spells_address(s@, r.unwrap().bytes@),
{
    match parse_h160(s) {
        Some(bytes) => Some(Address { bytes }),
        None => None,
    }
}

} // verus!
