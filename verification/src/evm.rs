//! Addresses, hashes and 256-bit words as bytes, and their text forms.

use crate::text::{be_value, decimal_digits};
use vstd::prelude::*;

verus! {

/// The Keccak-256 digest of a byte string.
pub uninterp spec fn keccak256_digest(bytes: Seq<u8>) -> Seq<u8>;

/// The mixed-case checksum notation of a 20-byte address.
pub uninterp spec fn checksum_text(address: Seq<u8>) -> Seq<char>;

/// Whether `c` is a hexadecimal digit, in either case.
pub open spec fn is_hex_digit(c: char) -> bool {
    ('0' <= c && c <= '9') || ('a' <= c && c <= 'f') || ('A' <= c && c <= 'F')
}

/// The value of a hexadecimal digit.
pub open spec fn hex_digit_value(c: char) -> nat {
    if '0' <= c && c <= '9' {
        (c as nat - '0' as nat) as nat
    } else if 'a' <= c && c <= 'f' {
        (c as nat - 'a' as nat + 10) as nat
    } else {
        (c as nat - 'A' as nat + 10) as nat
    }
}

/// The text without a leading `0x` or `0X`.
pub open spec fn hex_body(text: Seq<char>) -> Seq<char> {
    if text.len() >= 2 && text[0] == '0' && (text[1] == 'x' || text[1] == 'X') {
        text.skip(2)
    } else {
        text
    }
}

/// The bytes that pairs of hexadecimal digits write.
pub open spec fn hex_bytes(body: Seq<char>) -> Seq<u8> {
    Seq::new(
        body.len() / 2,
        |i: int| (hex_digit_value(body[2 * i]) * 16 + hex_digit_value(body[2 * i + 1])) as u8,
    )
}

/// The address that a text writes: forty hexadecimal digits, with or without
/// the `0x` prefix. Anything else is no address.
pub open spec fn parsed_address(text: Seq<char>) -> Option<Seq<u8>> {
    let body = hex_body(text);
    if body.len() == 40 && (forall|i: int| 0 <= i < 40 ==> is_hex_digit(#[trigger] body[i])) {
        Some(hex_bytes(body))
    } else {
        None
    }
}

/// The 32-byte word of an address: twelve zero bytes, then the address.
pub open spec fn address_word(address: Seq<u8>) -> Seq<u8> {
    Seq::new(12, |i: int| 0u8) + address
}

/// The first four bytes of the Keccak-256 digest of a function's
/// declaration, by which a contract finds the function that is called.
pub open spec fn selector(declaration: Seq<char>) -> Seq<u8> {
    keccak256_digest(vstd::utf8::encode_utf8(declaration)).take(4)
}

/// Calls `alloy::primitives::keccak256`. Trusted: the result is the
/// Keccak-256 digest of the bytes given, which depends on them alone.
#[verifier::external_body]
pub(crate) fn keccak256(bytes: &[u8]) -> (digest: [u8; 32])
    ensures
        digest@ == keccak256_digest(bytes@),
{
    alloy::primitives::keccak256(bytes).0
}

/// Formats through `Display` of `alloy::primitives::Address`. Trusted: the
/// result is the checksum notation of the address, which depends on its
/// twenty bytes alone.
#[verifier::external_body]
pub(crate) fn address_to_string(address: &[u8; 20]) -> (text: String)
    ensures
        text@ == checksum_text(address@),
{
    alloy::primitives::Address::from(*address).to_string()
}

/// Parses through `FromStr` of `alloy::primitives::Address`. Trusted: a text
/// is accepted exactly when, after an optional `0x` or `0X`, it is forty
/// hexadecimal digits, and the address holds the bytes they write.
#[verifier::external_body]
pub(crate) fn parse_address(text: &str) -> (address: Option<[u8; 20]>)
    ensures
        match address {
            Some(bytes) => parsed_address(text@) == Some(bytes@),
            None => parsed_address(text@).is_none(),
        },
{
    text.parse::<alloy::primitives::Address>().ok().map(|a| a.into_array())
}

/// Formats through `Display` of `alloy::primitives::U256`, built by
/// `from_be_slice`. Trusted: the result is the decimal notation of the number
/// that the 32 bytes write, most significant byte first.
#[verifier::external_body]
pub(crate) fn word_to_decimal(word: &[u8; 32]) -> (text: String)
    ensures
        text@ == decimal_digits(be_value(word@)),
{
    alloy::primitives::U256::from_be_slice(word).to_string()
}

} // verus!
