//! Telling a successful API response from a business error. The two shapes
//! carry no tag: a success holds a `response` member, an error an `error`
//! member with a code and a message. A document of neither shape, or of
//! both, is malformed.

use vstd::prelude::*;
use crate::codec::{
    declared_format, malformed, read_document, read_failure, received_document, Document,
};
use crate::errors::{ResponseDeserialize, VkApiError, VkError};
use crate::json::{field, find_field, json_i64, json_object, json_text, read_i64, read_object, read_text};
use crate::profile::Encoding;

verus! {

/// The code and message of a business error object, when `v` is one: an
/// object whose `error_code` is an integer in the range of `i16` and whose
/// `error_msg` is a string.
pub open spec fn error_shape(v: Seq<u8>) -> Option<(i16, Seq<char>)> {
    match json_object(v) {
        Some(members) => match (field(members, "error_code"@), field(members, "error_msg"@)) {
            (Some(c), Some(m)) => match (json_i64(c), json_text(m)) {
                (Some(k), Some(s)) => if i16::MIN <= k <= i16::MAX {
                    Some((k as i16, s))
                } else {
                    None
                },
                _ => None,
            },
            _ => None,
        },
        None => None,
    }
}

/// What an API response document holds. The shape is told by which
/// member is present: `response` alone gives `Some(Ok(p))` with its value
/// `p`; `error` alone gives `Some(Err((code, message)))` when it is a
/// well-formed error object. `None` when both members are present, when
/// neither is, or when the `error` member is malformed.
pub open spec fn api_envelope(doc: Seq<u8>) -> Option<Result<Seq<u8>, (i16, Seq<char>)>> {
    match json_object(doc) {
        None => None,
        Some(members) => match (field(members, "response"@), field(members, "error"@)) {
            (Some(p), None) => Some(Ok(p)),
            (None, Some(e)) => match error_shape(e) {
                Some(fields) => Some(Err(fields)),
                None => None,
            },
            _ => None,
        },
    }
}

/// `r` is what resolving the API response document `doc` of format `f` gives.
pub open spec fn api_resolved(r: Result<Document, VkApiError>, f: Encoding, doc: Seq<u8>) -> bool {
    match api_envelope(doc) {
        Some(Ok(p)) => r matches Ok(d) && d.json@ == p && d.format == f,
        Some(Err((code, message))) => r matches Err(VkApiError::Vk(e)) && e.error_code == code
            && e.error_msg@ == message,
        None => r == Err::<Document, VkApiError>(malformed(f)),
    }
}

/// `r` is what decoding an API response gives, from its `Content-Type`, its
/// `Content-Encoding` and its body as received.
pub open spec fn api_response(
    content_type: Option<&str>,
    content_encoding: Option<&str>,
    body: Seq<u8>,
    r: Result<Document, VkApiError>,
) -> bool {
    match received_document(content_type, content_encoding, body) {
        Some(doc) => api_resolved(r, declared_format(content_type), doc),
        None => read_failure(content_type, content_encoding, body, r),
    }
}

/// Reads a business error object.
fn read_error(v: &[u8]) -> (r: Option<VkError>)
    ensures
        match error_shape(v@) {
            Some((code, message)) => r matches Some(e) && e.error_code == code && e.error_msg@
                == message,
            None => r is None,
        },
{
    let members = match read_object(v) {
        Ok(m) => m,
        Err(_) => return None,
    };
    let code = match find_field(&members, "error_code") {
        Some(c) => c,
        None => return None,
    };
    let message = match find_field(&members, "error_msg") {
        Some(m) => m,
        None => return None,
    };
    let k = match read_i64(code.as_slice()) {
        Ok(k) => k,
        Err(_) => return None,
    };
    let text = match read_text(message.as_slice()) {
        Ok(t) => t,
        Err(_) => return None,
    };
    if -32768 <= k && k <= 32767 {
        Some(VkError::new(k as i16, text))
    } else {
        None
    }
}

/// Resolves a decoded API response into its payload or its business error.
pub fn resolve_api_envelope(doc: &Document) -> (r: Result<Document, VkApiError>)
    ensures
        api_resolved(r, doc.format, doc.json@),
{
    let fault = if doc.format == Encoding::Msgpack {
        ResponseDeserialize::MsgPack
    } else {
        ResponseDeserialize::Json
    };
    let members = match read_object(doc.json.as_slice()) {
        Ok(m) => m,
        Err(_) => return Err(VkApiError::ResponseDeserialize(fault)),
    };
    match (find_field(&members, "response"), find_field(&members, "error")) {
        (Some(p), None) => Ok(Document { format: doc.format, json: p }),
        (None, Some(e)) => match read_error(e.as_slice()) {
            Some(e) => Err(VkApiError::Vk(e)),
            None => Err(VkApiError::ResponseDeserialize(fault)),
        },
        _ => Err(VkApiError::ResponseDeserialize(fault)),
    }
}

/// Decodes the response to an API call: undoes the compression its
/// `Content-Encoding` declares, decodes the format its `Content-Type`
/// declares, and resolves the payload or the business error.
pub fn decode_api_response(
    content_type: Option<&str>,
    content_encoding: Option<&str>,
    body: &[u8],
) -> (r: Result<Document, VkApiError>)
    ensures
        api_response(content_type, content_encoding, body@, r),
{
    match read_document(content_type, content_encoding, body) {
        Ok(doc) => resolve_api_envelope(&doc),
        Err(e) => Err(e),
    }
}

} // verus!
