//! Credential decoding through the `hex` and `base64` crates and std UTF-8
//! validation.

use base64::Engine as _;
use vstd::prelude::*;
use vstd::string::*;
use vstd::utf8::{decode_utf8, valid_utf8};

verus! {

/// Value of one ASCII hex digit (either case).
pub open spec fn hex_digit_value(b: u8) -> Option<u8> {
    if 48 <= b <= 57 {
        Some((b - 48) as u8)
    } else if 97 <= b <= 102 {
        Some((b - 87) as u8)
    } else if 65 <= b <= 70 {
        Some((b - 55) as u8)
    } else {
        None
    }
}

/// Decoding of exactly 64 hex digits into 32 bytes, high nibble first.
pub open spec fn spec_hex_decode_32(data: Seq<u8>) -> Option<Seq<u8>> {
    if data.len() == 64 && forall|i: int| 0 <= i < 64 ==> (#[trigger] hex_digit_value(data[i])) is Some {
        Some(
            Seq::new(
                32,
                |i: int|
                    (hex_digit_value(data[2 * i])->0 * 16 + hex_digit_value(data[2 * i + 1])->0) as u8,
            ),
        )
    } else {
        None
    }
}

/// The view of an optional byte vector.
pub open spec fn opt_bytes_view(r: Option<Vec<u8>>) -> Option<Seq<u8>> {
    match r {
        Some(v) => Some(v@),
        None => None,
    }
}

/// Decode a 64-digit hex text into 32 bytes with `hex::decode_to_slice`.
///
/// Trusted: `decode_to_slice` fails on an odd length, on a length other than
/// twice the output's, and on any byte outside `0-9a-fA-F`; otherwise byte `i`
/// is the value of digit `2i` shifted left by four, or-ed with digit `2i + 1`.
#[verifier::external_body]
pub(crate) fn hex_decode_32(text: &str) -> (r: Option<Vec<u8>>)
    ensures
        opt_bytes_view(r) == spec_hex_decode_32(text.spec_bytes()),
{
    let mut out = [0u8; 32];
    match hex::decode_to_slice(text, &mut out) {
        Ok(()) => Some(out.to_vec()),
        Err(_) => None,
    }
}

/// What `base64`'s standard engine (RFC 4648 alphabet, padding required)
/// decodes a text into, or `None` when it rejects the text.
pub uninterp spec fn base64_standard_decoding(text: Seq<u8>) -> Option<Seq<u8>>;

/// Decode standard, padded base64 with `base64::engine::general_purpose::STANDARD`.
///
/// Trusted: the result is the engine's decoding of the text's bytes, named
/// `base64_standard_decoding`; nothing more is claimed about it.
#[verifier::external_body]
pub(crate) fn decode_base64_standard(text: &str) -> (r: Option<Vec<u8>>)
    ensures
        opt_bytes_view(r) == base64_standard_decoding(text.spec_bytes()),
{
    base64::engine::general_purpose::STANDARD.decode(text).ok()
}

/// Turn bytes into a `String` with `String::from_utf8`.
///
/// Trusted: std documents that this succeeds exactly on valid UTF-8 and then
/// holds the decoded characters.
#[verifier::external_body]
pub(crate) fn string_from_utf8(bytes: Vec<u8>) -> (r: Option<String>)
    ensures
        r is Some <==> valid_utf8(bytes@),
        r matches Some(s) ==> s@ == decode_utf8(bytes@),
{
    String::from_utf8(bytes).ok()
}

} // verus!
