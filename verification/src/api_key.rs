//! The API key that a request presents in its key header.

use crate::codec::{base64_decoding, decode_base64, utf8_text};
use vstd::prelude::*;
use vstd::string::StringSliceAdditionalSpecFns;
use vstd::utf8::{decode_utf8, encode_utf8_decode_utf8, valid_utf8};

verus! {

/// A key as the client spelled it, after base64 decoding.
#[derive(Debug)]
pub struct ApiKey(pub String);

/// Why a request has no usable key.
#[derive(Debug)]
pub enum ApiKeyError {
    /// The request has no key header.
    MissingKey,
    /// The key header is not base64.
    InvalidKey,
}

impl View for ApiKey {
    type V = Seq<char>;

    open spec fn view(&self) -> Seq<char> {
        self.0@
    }
}

impl ApiKey {
    /// The key that `bytes` spell, where they are UTF-8 text.
    pub fn from_bytes(bytes: &[u8]) -> (key: Option<ApiKey>)
        ensures
            key is Some <==> valid_utf8(bytes@),
            key matches Some(k) ==> k@ == decode_utf8(bytes@),
    {
        match utf8_text(bytes) {
            Some(text) => {
                proof {
                    encode_utf8_decode_utf8(text@);
                }
                Some(ApiKey(text.to_owned()))
            },
            None => None,
        }
    }

    /// The key of a request, from the value of its key header if it has one.
    ///
    /// A request without the header has a missing key, and one whose header is
    /// not base64 an invalid key. Otherwise the key is the text of the decoded
    /// bytes; there is no outcome (`None`) where these are not UTF-8 text.
    ///
    /// The header is to be no longer than `isize::MAX` bytes, as every string
    /// in memory is.
    pub fn from_request(header: Option<&str>) -> (outcome: Option<Result<ApiKey, ApiKeyError>>)
        requires
            header matches Some(text) ==> text.spec_bytes().len() <= isize::MAX,
        ensures
            match header {
                None => outcome matches Some(Err(ApiKeyError::MissingKey)),
                Some(text) => match base64_decoding(text.spec_bytes()) {
                    None => outcome matches Some(Err(ApiKeyError::InvalidKey)),
                    Some(bytes) => if valid_utf8(bytes) {
                        outcome matches Some(Ok(key)) && key@ == decode_utf8(bytes)
                    } else {
                        outcome is None
                    },
                },
            },
    {
        match header {
            None => Some(Err(ApiKeyError::MissingKey)),
            Some(text) => match decode_base64(text.as_bytes()) {
                Err(_) => Some(Err(ApiKeyError::InvalidKey)),
                Ok(bytes) => match ApiKey::from_bytes(bytes.as_slice()) {
                    Some(key) => Some(Ok(key)),
                    None => None,
                },
            },
        }
    }
}

} // verus!
