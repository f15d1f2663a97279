//! Hashing and text encodings supplied by other crates and by the standard
//! library.
//!
//! Each function here is a thin call into code outside the library. Its
//! contract is taken on trust from that code's source or documentation; the
//! rest of the library is proved from these contracts.

use bech32::FromBase32;
use sha3::Digest;
use vstd::prelude::*;

verus! {

/// The Keccak-256 digest of a byte string.
pub uninterp spec fn keccak256_digest(data: Seq<u8>) -> Seq<u8>;

/// The RFC 4648 base64 text, with padding, of a byte string.
pub uninterp spec fn base64_text(data: Seq<u8>) -> Seq<char>;

/// The data part of a bech32 string as 5-bit groups, after its checksum was
/// verified and removed; `None` where the string is no valid bech32.
pub uninterp spec fn bech32_groups(text: Seq<char>) -> Option<Seq<u8>>;

/// The bytes that a sequence of 5-bit groups regroups to without padding;
/// `None` where the left-over bits are no valid padding.
pub uninterp spec fn groups_to_bytes(groups: Seq<u8>) -> Option<Seq<u8>>;

/// The Unicode lowercase form of a text.
pub uninterp spec fn lowercase_text(text: Seq<char>) -> Seq<char>;

/// The value of a lowercase hexadecimal digit given as an ASCII byte.
pub open spec fn hex_digit_value(c: u8) -> Option<u8> {
    if 48 <= c <= 57 {
        Some((c - 48) as u8)
    } else if 97 <= c <= 102 {
        Some((c - 87) as u8)
    } else {
        None
    }
}

/// Whether every byte of `text` is one of `0-9a-f` and they pair up.
pub open spec fn is_lower_hex(text: Seq<u8>) -> bool {
    &&& text.len() % 2 == 0
    &&& forall|i: int| 0 <= i < text.len() ==> (#[trigger] hex_digit_value(text[i])) is Some
}

/// The bytes that lowercase hexadecimal text stands for, two digits a byte,
/// the high digit first; `None` where the text is no such encoding.
pub open spec fn hex_decoded(text: Seq<u8>) -> Option<Seq<u8>> {
    if is_lower_hex(text) {
        Some(
            Seq::new(
                text.len() / 2,
                |i: int|
                    (16 * hex_digit_value(text[2 * i])->0 + hex_digit_value(text[2 * i + 1])->0) as u8,
            ),
        )
    } else {
        None
    }
}

/// `text` without every leading repetition of `prefix`.
pub open spec fn without_leading(text: Seq<char>, prefix: Seq<char>) -> Seq<char>
    decreases text.len(),
{
    if prefix.len() > 0 && prefix.is_prefix_of(text) {
        without_leading(text.skip(prefix.len() as int), prefix)
    } else {
        text
    }
}

/// The largest input that the hexadecimal decoder accepts without giving up.
pub open spec fn hex_input_limit() -> int {
    (usize::MAX as int) / 8
}

/// The largest input that the base64 encoder accepts without giving up.
pub open spec fn base64_input_limit() -> int {
    (usize::MAX as int) / 512
}

/// Calls `sha3::Keccak256::digest`. Trusted: the result is the Keccak-256
/// digest of `data`, which is always 32 bytes long.
#[verifier::external_body]
pub(crate) fn keccak256(data: &[u8]) -> (digest: Vec<u8>)
    ensures
        digest@ == keccak256_digest(data@),
        digest@.len() == 32,
{
    sha3::Keccak256::digest(data).to_vec()
}

/// Calls `data_encoding::BASE64.encode`. Trusted: the result is the padded
/// base64 text of `data`. The encoder gives up on inputs above
/// `base64_input_limit()`, which the precondition leaves out.
#[verifier::external_body]
pub(crate) fn base64_encode(data: &[u8]) -> (text: String)
    requires
        data@.len() <= base64_input_limit(),
    ensures
        text@ == base64_text(data@),
{
    data_encoding::BASE64.encode(data)
}

/// Calls `data_encoding::HEXLOWER.decode`. Trusted: the decoder accepts
/// exactly the texts of even length made of `0-9a-f` and returns the bytes
/// they spell, high digit first. It gives up on inputs above
/// `hex_input_limit()`, which the precondition leaves out.
#[verifier::external_body]
pub(crate) fn hex_decode(text: &[u8]) -> (bytes: Option<Vec<u8>>)
    requires
        text@.len() <= hex_input_limit(),
    ensures
        match bytes {
            Some(b) => hex_decoded(text@) == Some(b@),
            None => hex_decoded(text@) is None,
        },
{
    match data_encoding::HEXLOWER.decode(text) {
        Ok(bytes) => Some(bytes),
        Err(_) => None,
    }
}

/// Calls `bech32::decode`. Trusted: the result is the data part of `text`
/// as 5-bit groups, each below 32, or `None` where decoding fails.
#[verifier::external_body]
pub(crate) fn bech32_decode(text: &str) -> (groups: Option<Vec<u8>>)
    ensures
        match groups {
            Some(g) => {
                &&& bech32_groups(text@) == Some(g@)
                &&& forall|i: int| 0 <= i < g@.len() ==> g@[i] < 32
            },
            None => bech32_groups(text@) is None,
        },
{
    match bech32::decode(text) {
        Ok((_, data, _)) => Some(data.iter().map(|g| g.to_u8()).collect()),
        Err(_) => None,
    }
}

/// Calls `<Vec<u8> as bech32::FromBase32>::from_base32`. Trusted: the result
/// is the 5-bit groups regrouped to bytes, or `None` where the padding is
/// invalid. Every group must be below 32.
#[verifier::external_body]
pub(crate) fn base32_to_bytes(groups: &Vec<u8>) -> (bytes: Option<Vec<u8>>)
    requires
        forall|i: int| 0 <= i < groups@.len() ==> groups@[i] < 32,
    ensures
        match bytes {
            Some(b) => groups_to_bytes(groups@) == Some(b@),
            None => groups_to_bytes(groups@) is None,
        },
{
    let data: Vec<bech32::u5> =
        groups.iter().map(|g| bech32::u5::try_from_u8(*g).unwrap()).collect();
    match Vec::<u8>::from_base32(&data) {
        Ok(bytes) => Some(bytes),
        Err(_) => None,
    }
}

/// Calls `str::to_lowercase`. Trusted: the result is the Unicode lowercase
/// form of `text`.
#[verifier::external_body]
pub(crate) fn to_lowercase(text: &str) -> (lower: String)
    ensures
        lower@ == lowercase_text(text@),
{
    text.to_lowercase()
}

/// Calls `str::trim_start_matches`. Trusted: the result is `text` with every
/// leading repetition of `prefix` removed. The prefix is not empty.
#[verifier::external_body]
pub(crate) fn trim_start_matches<'a>(text: &'a str, prefix: &str) -> (rest: &'a str)
    requires
        prefix@.len() > 0,
    ensures
        rest@ == without_leading(text@, prefix@),
{
    text.trim_start_matches(prefix)
}

/// Calls `str::starts_with`. Trusted: the result says whether `text` begins
/// with `prefix`.
#[verifier::external_body]
pub(crate) fn starts_with(text: &str, prefix: &str) -> (begins: bool)
    ensures
        begins == prefix@.is_prefix_of(text@),
{
    text.starts_with(prefix)
}

} // verus!
