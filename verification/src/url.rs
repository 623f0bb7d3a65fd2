//! Addresses: percent-encoding through `urlencoding`, query strings through
//! `url`.

use vstd::prelude::*;
use vstd::utf8::encode_utf8;

verus! {

/// The bytes that stand for themselves in a percent-encoded text: ASCII
/// letters and digits, `-`, `.`, `_` and `~`.
pub open spec fn is_unreserved(byte: u8) -> bool {
    ||| 0x30 <= byte <= 0x39
    ||| 0x41 <= byte <= 0x5a
    ||| 0x61 <= byte <= 0x7a
    ||| byte == 0x2d
    ||| byte == 0x2e
    ||| byte == 0x5f
    ||| byte == 0x7e
}

/// The hexadecimal digit of `nibble`, in upper case.
pub open spec fn hex_digit(nibble: u8) -> char {
    if nibble < 10 {
        (0x30 + nibble) as char
    } else {
        (0x41 + nibble - 10) as char
    }
}

/// One byte, percent-encoded.
pub open spec fn encoded_byte(byte: u8) -> Seq<char> {
    if is_unreserved(byte) {
        seq![byte as char]
    } else {
        seq!['%', hex_digit(byte / 16), hex_digit(byte % 16)]
    }
}

/// The bytes `bytes`, percent-encoded.
pub open spec fn encoded_bytes(bytes: Seq<u8>) -> Seq<char>
    decreases bytes.len(),
{
    if bytes.len() == 0 {
        Seq::empty()
    } else {
        encoded_bytes(bytes.drop_last()) + encoded_byte(bytes.last())
    }
}

/// The UTF-8 bytes of `text`, percent-encoded.
pub open spec fn percent_encoded(text: Seq<char>) -> Seq<char> {
    encoded_bytes(encode_utf8(text))
}

/// `urlencoding::encode`, which percent-encodes every byte of the text but
/// ASCII letters and digits, `-`, `.`, `_` and `~`.
#[verifier::external_body]
pub(crate) fn encode(text: &str) -> (encoded: String)
    ensures
        encoded@ == percent_encoded(text@),
{
    urlencoding::encode(text).into_owned()
}

/// The address `base` with the pairs `params` added to its query, as `url`
/// writes it, or the message with which it refuses `base`.
pub uninterp spec fn url_with_params(base: Seq<char>, params: Seq<(Seq<char>, Seq<char>)>) -> Result<
    Seq<char>,
    Seq<char>,
>;

/// Names and values as plain text.
pub open spec fn param_views(params: Seq<(&str, &str)>) -> Seq<(Seq<char>, Seq<char>)> {
    params.map_values(|pair: (&str, &str)| (pair.0@, pair.1@))
}

/// An address, or the message for none, as plain values.
pub open spec fn url_view(r: Result<String, String>) -> Result<Seq<char>, Seq<char>> {
    match r {
        Ok(url) => Ok(url@),
        Err(message) => Err(message@),
    }
}

/// `Url::parse_with_params`, the address written out, or the error's
/// message.
#[verifier::external_body]
pub(crate) fn with_params(base: &str, params: &Vec<(&str, &str)>) -> (r: Result<String, String>)
    ensures
        url_view(r) == url_with_params(base@, param_views(params@)),
{
    url::Url::parse_with_params(base, params.iter()).map(|url| url.to_string()).map_err(
        |error| error.to_string(),
    )
}

} // verus!
