//! The calls this library makes into the ledger client crate, with what they
//! compute stated over plain values.
use vstd::prelude::*;
use crate::primitives::Address;

verus! {

/// Value of one hexadecimal digit, either case.
pub open spec fn hex_digit_value(c: char) -> Option<u8> {
    if '0' <= c && c <= '9' {
        Some((c as u32 - '0' as u32) as u8)
    } else if 'a' <= c && c <= 'f' {
        Some((c as u32 - 'a' as u32 + 10) as u8)
    } else if 'A' <= c && c <= 'F' {
        Some((c as u32 - 'A' as u32 + 10) as u8)
    } else {
        None
    }
}

/// Lower-case digit for a value below sixteen.
pub open spec fn lower_hex_digit(n: u8) -> char {
    if n < 10 {
        ((n + 48) as u32) as char
    } else {
        ((n + 87) as u32) as char
    }
}

/// Lower-case hexadecimal text of a byte string, two digits per byte.
pub open spec fn lower_hex(b: Seq<u8>) -> Seq<char> {
    Seq::new(
        2 * b.len(),
        |i: int|
            if i % 2 == 0 {
                lower_hex_digit(b[i / 2] / 16)
            } else {
                lower_hex_digit(b[i / 2] % 16)
            },
    )
}

/// The text with a leading `0x` or `0X` removed.
pub open spec fn hex_body(s: Seq<char>) -> Seq<char> {
    if s.len() >= 2 && s[0] == '0' && (s[1] == 'x' || s[1] == 'X') {
        s.subrange(2, s.len() as int)
    } else {
        s
    }
}

/// Whether the text is hexadecimal: an even length, an optional `0x` prefix,
/// and hexadecimal digits only.
pub open spec fn is_hex_text(s: Seq<char>) -> bool {
    &&& s.len() % 2 == 0
    &&& forall|i: int| 0 <= i < hex_body(s).len() ==> (#[trigger] hex_digit_value(hex_body(s)[i])) is Some
}

/// The bytes that a hexadecimal text spells, two digits per byte.
pub open spec fn hex_decode(s: Seq<char>) -> Seq<u8> {
    let body = hex_body(s);
    Seq::new(
        body.len() / 2,
        |i: int|
            (hex_digit_value(body[2 * i])->0 * 16 + hex_digit_value(body[2 * i + 1])->0) as u8,
    )
}

/// Whether the text spells a 20-byte address in hexadecimal.
pub open spec fn is_address_text(s: Seq<char>) -> bool {
    is_hex_text(s) && hex_body(s).len() == 40
}

/// Keccak-256 digest of a byte string.
pub uninterp spec fn keccak_of(b: Seq<u8>) -> Seq<u8>;

/// Relies on `alloy::primitives::keccak256`: the Keccak-256 digest of the
/// bytes, which depends on the bytes alone.
#[verifier::external_body]
pub(crate) fn keccak(b: &[u8]) -> (r: [u8; 32])
    ensures
        r@ == keccak_of(b@),
{
    alloy::primitives::keccak256(b).0
}

/// Relies on `alloy::primitives::hex::encode_prefixed`: `0x` followed by two
/// lower-case digits per byte.
#[verifier::external_body]
pub(crate) fn hex_text(b: &[u8]) -> (r: String)
    ensures
        r@ == seq!['0', 'x'] + lower_hex(b@),
{
    alloy::primitives::hex::encode_prefixed(b)
}

/// Relies on `alloy::primitives::Bytes::from_str` (const-hex `decode`): an
/// even-length text, optionally prefixed by `0x`, of hexadecimal digits of
/// either case.
#[verifier::external_body]
pub(crate) fn decode_hex(s: &str) -> (r: Option<Vec<u8>>)
    ensures
        r is Some <==> is_hex_text(s@),
        r is Some ==> r->0@ == hex_decode(s@),
{
    match <alloy::primitives::Bytes as core::str::FromStr>::from_str(s) {
        Ok(b) => Some(b.to_vec()),
        Err(_) => None,
    }
}

/// Relies on `alloy::primitives::Address::from_str` (const-hex
/// `decode_to_array`): forty hexadecimal digits of either case, optionally
/// prefixed by `0x`; the checksum of mixed-case text is not checked.
#[verifier::external_body]
pub(crate) fn parse_address_text(s: &str) -> (r: Option<Address>)
    ensures
        r is Some <==> is_address_text(s@),
        r is Some ==> r->0.bytes@ == hex_decode(s@),
{
    match <alloy::primitives::Address as core::str::FromStr>::from_str(s) {
        Ok(a) => Some(Address { bytes: a.0.0 }),
        Err(_) => None,
    }
}

} // verus!
