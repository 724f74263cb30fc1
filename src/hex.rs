//! Hex text as the relay meets it: transaction payloads (lowercase only)
//! and network markers (four bytes, either case).
use vstd::prelude::*;

verus! {

/// Value of a lowercase hex digit.
pub open spec fn lower_nibble(c: char) -> Option<u8> {
    if '0' <= c && c <= '9' {
        Some((c as u32 - '0' as u32) as u8)
    } else if 'a' <= c && c <= 'f' {
        Some((c as u32 - 'a' as u32 + 10) as u8)
    } else {
        None
    }
}

/// Value of a hex digit of either case.
pub open spec fn any_nibble(c: char) -> Option<u8> {
    if 'A' <= c && c <= 'F' {
        Some((c as u32 - 'A' as u32 + 10) as u8)
    } else {
        lower_nibble(c)
    }
}

/// The bytes spelled by consecutive digit pairs, high digit first.
pub open spec fn pair_bytes(s: Seq<char>, nib: spec_fn(char) -> Option<u8>) -> Seq<u8> {
    Seq::new(
        s.len() / 2,
        |i: int| (16 * nib(s[2 * i]).unwrap() + nib(s[2 * i + 1]).unwrap()) as u8,
    )
}

/// Every character is a digit for `nib`.
pub open spec fn all_digits(s: Seq<char>, nib: spec_fn(char) -> Option<u8>) -> bool {
    forall|i: int| 0 <= i < s.len() ==> (#[trigger] nib(s[i])) is Some
}

/// A transaction payload: an even number of lowercase hex digits.
pub open spec fn payload_bytes(s: Seq<char>) -> Option<Seq<u8>> {
    if s.len() % 2 == 0 && all_digits(s, |c: char| lower_nibble(c)) {
        Some(pair_bytes(s, |c: char| lower_nibble(c)))
    } else {
        None
    }
}

/// A network marker: exactly eight hex digits of either case.
pub open spec fn marker_bytes(s: Seq<char>) -> Option<Seq<u8>> {
    if s.len() == 8 && all_digits(s, |c: char| any_nibble(c)) {
        Some(pair_bytes(s, |c: char| any_nibble(c)))
    } else {
        None
    }
}

/// Relies on `hex_string::HexString::from_string`, which accepts an even
/// number of characters from `0-9a-f` and nothing else, and on
/// `HexString::as_bytes`, which turns each pair into one byte.
#[verifier::external_body]
pub(crate) fn decode_payload_hex(s: &str) -> (r: Option<Vec<u8>>)
    ensures
        match r {
            Some(b) => payload_bytes(s@) == Some(b@),
            None => payload_bytes(s@) is None,
        },
{
    hex_string::HexString::from_string(s).ok().map(|h| h.as_bytes())
}

/// Relies on `bitcoin::network::Magic::from_str`, which reads four bytes
/// from exactly eight hex digits of either case, and on `Magic::to_bytes`.
#[verifier::external_body]
pub(crate) fn parse_marker(s: &str) -> (r: Option<[u8; 4]>)
    ensures
        match r {
            Some(b) => marker_bytes(s@) == Some(b@),
            None => marker_bytes(s@) is None,
        },
{
    <bitcoin::network::Magic as std::str::FromStr>::from_str(s).ok().map(|m| m.to_bytes())
}

} // verus!
