//! Reading the reply of an upload server: a text body, compressed or not.

use vstd::prelude::*;
use vstd::utf8::{decode_utf8, valid_utf8};
use crate::codec::{uncompress, uncompressed};
use crate::errors::VkApiError;

verus! {

/// `std::string::FromUtf8Error`, which `String::from_utf8` fails with.
#[verifier::external_type_specification]
#[verifier::external_body]
pub struct ExFromUtf8Error(std::string::FromUtf8Error);

/// Relies on `String::from_utf8`, which takes the bytes as they are when
/// they are valid UTF-8 and fails otherwise.
#[verifier::external_body]
fn utf8_text(b: Vec<u8>) -> (r: Result<String, std::string::FromUtf8Error>)
    ensures
        match r {
            Ok(s) => valid_utf8(b@) && s@ == decode_utf8(b@),
            Err(_) => !valid_utf8(b@),
        },
{
    String::from_utf8(b)
}

/// The text of an upload server's reply, with the compression its
/// `Content-Encoding` declares undone.
pub fn decode_upload_response(content_encoding: Option<&str>, body: &[u8]) -> (r: Result<
    String,
    VkApiError,
>)
    ensures
        match uncompressed(content_encoding, body@) {
            Some(raw) => if valid_utf8(raw) {
                r matches Ok(s) && s@ == decode_utf8(raw)
            } else {
                r matches Err(VkApiError::IO(_))
            },
            None => r matches Err(VkApiError::IO(_)),
        },
{
    let raw = match uncompress(content_encoding, body) {
        Ok(raw) => raw,
        Err(e) => return Err(e),
    };
    match utf8_text(raw) {
        Ok(s) => Ok(s),
        Err(_) => Err(VkApiError::IO(String::from_str("stream did not contain valid UTF-8"))),
    }
}

} // verus!
