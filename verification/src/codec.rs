//! Base64 and UTF-8 conversions, done by the `base64` crate and by `std`.
//!
//! The functions here are believed, not proved: each makes one outside call
//! and states what that call returns.

use vstd::prelude::*;
use vstd::string::StringSliceAdditionalSpecFns;
use vstd::utf8::valid_utf8;

verus! {

/// The error type of `base64::decode`. Nothing is read from it.
#[verifier::external_type_specification]
#[verifier::external_body]
pub struct ExDecodeError(base64::DecodeError);

/// The text that `base64::encode` returns for `input`: its base64 form in the
/// standard alphabet, with padding.
pub uninterp spec fn base64_encoding(input: Seq<u8>) -> Seq<char>;

/// The bytes that `base64::decode` returns for `input`, or `None` where it
/// rejects `input` as not being base64 in the standard alphabet.
pub uninterp spec fn base64_decoding(input: Seq<u8>) -> Option<Seq<u8>>;

/// Calls `base64::encode`, which returns the base64 text of its input.
///
/// `encode` panics only where the length of that text, four characters for
/// every three bytes begun, is more than a vector can hold; the bound rules
/// that out.
#[verifier::external_body]
pub(crate) fn encode_base64(input: &[u8]) -> (text: String)
    requires
        4 * ((input@.len() + 2) / 3) <= isize::MAX,
    ensures
        text@ == base64_encoding(input@),
{
    base64::encode(input)
}

/// Calls `base64::decode`, which returns the bytes that its input stands for,
/// or an error where the input is not base64.
///
/// `decode` panics only where a length that it computes from that of its
/// input, never more than the input's own beyond a few bytes, overflows or is
/// more than a vector can hold; the bound rules that out.
#[verifier::external_body]
pub(crate) fn decode_base64(input: &[u8]) -> (decoded: Result<Vec<u8>, base64::DecodeError>)
    requires
        input@.len() <= isize::MAX,
    ensures
        match decoded {
            Ok(bytes) => base64_decoding(input@) == Some(bytes@),
            Err(_) => base64_decoding(input@) is None,
        },
{
    base64::decode(input)
}

/// Calls `std::str::from_utf8`, which returns its input as text where the
/// bytes are valid UTF-8, and an error where they are not.
#[verifier::external_body]
pub(crate) fn utf8_text<'a>(bytes: &'a [u8]) -> (text: Option<&'a str>)
    ensures
        text is Some <==> valid_utf8(bytes@),
        text matches Some(t) ==> t.spec_bytes() == bytes@,
{
    match std::str::from_utf8(bytes) {
        Ok(text) => Some(text),
        Err(_) => None,
    }
}

} // verus!
