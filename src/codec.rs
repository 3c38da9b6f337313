//! Decompression and format dispatch of response bodies.
//!
//! Which decompressor and which decoder apply is decided by the headers the
//! server returned, never by what the client asked for. A decoded document is
//! held as JSON text: MessagePack bodies are rendered as JSON on decoding, so
//! that everything downstream reads one format.

use vstd::prelude::*;
use crate::errors::{ResponseDeserialize, VkApiError};
use crate::profile::{Compression, Encoding};
use crate::text::{has_prefix, starts_with, text_eq};
use vstd::slice::slice_to_vec;

verus! {

/// `std::io::Error`, which the decompressors fail with.
#[verifier::external_type_specification]
#[verifier::external_body]
pub struct ExIoError(std::io::Error);

/// `serde_json::Error`, which the JSON readers fail with.
#[verifier::external_type_specification]
#[verifier::external_body]
pub struct ExJsonError(serde_json::Error);

/// `rmp_serde::decode::Error`, which the MessagePack decoder fails with.
#[verifier::external_type_specification]
#[verifier::external_body]
pub struct ExMsgpackDecodeError(rmp_serde::decode::Error);

/// What a zstd stream decompresses to; `None` when it is corrupt.
pub uninterp spec fn zstd_decoded(b: Seq<u8>) -> Option<Seq<u8>>;

/// What the first member of a gzip stream decompresses to; `None` when it is corrupt.
pub uninterp spec fn gzip_decoded(b: Seq<u8>) -> Option<Seq<u8>>;

/// The JSON text of the value a MessagePack document holds; `None` when it
/// is malformed or holds what JSON cannot (a map with non-string keys).
pub uninterp spec fn msgpack_as_json(b: Seq<u8>) -> Option<Seq<u8>>;

/// Relies on `zstd::stream::decode_all`: decompresses a whole zstd stream
/// held in memory, failing on corrupt input.
#[verifier::external_body]
fn zstd_decode(b: &[u8]) -> (r: Result<Vec<u8>, std::io::Error>)
    ensures
        match r {
            Ok(v) => zstd_decoded(b@) == Some(v@),
            Err(_) => zstd_decoded(b@) is None,
        },
{
    zstd::stream::decode_all(b)
}

/// Relies on `flate2::read::GzDecoder`: decompresses the gzip stream held in
/// `b`, failing on corrupt input.
#[verifier::external_body]
fn gzip_decode(b: &[u8]) -> (r: Result<Vec<u8>, std::io::Error>)
    ensures
        match r {
            Ok(v) => gzip_decoded(b@) == Some(v@),
            Err(_) => gzip_decoded(b@) is None,
        },
{
    let mut out = Vec::new();
    std::io::Read::read_to_end(&mut flate2::read::GzDecoder::new(b), &mut out).map(|_| out)
}

/// Relies on `rmp_serde::from_slice` decoding into a `serde_json::Value`,
/// which its `Display` renders back as compact JSON text.
#[verifier::external_body]
fn msgpack_to_json(b: &[u8]) -> (r: Result<Vec<u8>, rmp_serde::decode::Error>)
    ensures
        match r {
            Ok(v) => msgpack_as_json(b@) == Some(v@),
            Err(_) => msgpack_as_json(b@) is None,
        },
{
    rmp_serde::from_slice::<serde_json::Value>(b).map(|v| v.to_string().into_bytes())
}

/// The compression a `Content-Encoding` header declares: `zstd` and `gzip`
/// are recognised, anything else (or no header) means none.
pub open spec fn declared_compression(h: Option<&str>) -> Compression {
    match h {
        Some(v) => if v@ == "zstd"@ {
            Compression::Zstd
        } else if v@ == "gzip"@ {
            Compression::Gzip
        } else {
            Compression::Identity
        },
        None => Compression::Identity,
    }
}

/// The format a `Content-Type` header declares, by its prefix.
pub open spec fn declared_format(h: Option<&str>) -> Encoding {
    match h {
        Some(v) => if starts_with(v@, "application/json"@) {
            Encoding::Json
        } else if starts_with(v@, "application/x-msgpack"@) {
            Encoding::Msgpack
        } else {
            Encoding::Text
        },
        None => Encoding::Text,
    }
}

/// The body with the declared compression undone; `None` when the declared
/// decompressor rejects it.
pub open spec fn uncompressed(content_encoding: Option<&str>, b: Seq<u8>) -> Option<Seq<u8>> {
    match declared_compression(content_encoding) {
        Compression::Zstd => zstd_decoded(b),
        Compression::Gzip => gzip_decoded(b),
        Compression::Identity => Some(b),
    }
}

/// The JSON text of a body in format `f`; `None` when the body cannot be
/// read in that format.
pub open spec fn document_json(f: Encoding, b: Seq<u8>) -> Option<Seq<u8>> {
    match f {
        Encoding::Json => Some(b),
        Encoding::Msgpack => msgpack_as_json(b),
        Encoding::Text => None,
    }
}

/// The error for a body of format `f` that is malformed or of the wrong shape.
pub open spec fn malformed(f: Encoding) -> VkApiError {
    if f == Encoding::Msgpack {
        VkApiError::ResponseDeserialize(ResponseDeserialize::MsgPack)
    } else {
        VkApiError::ResponseDeserialize(ResponseDeserialize::Json)
    }
}

/// Recognises the compression a `Content-Encoding` header declares.
pub fn content_compression(content_encoding: Option<&str>) -> (r: Compression)
    ensures
        r == declared_compression(content_encoding),
{
    match content_encoding {
        Some(v) => if text_eq(v, "zstd") {
            Compression::Zstd
        } else if text_eq(v, "gzip") {
            Compression::Gzip
        } else {
            Compression::Identity
        },
        None => Compression::Identity,
    }
}

/// Recognises the format a `Content-Type` header declares.
pub fn content_format(content_type: Option<&str>) -> (r: Encoding)
    ensures
        r == declared_format(content_type),
{
    match content_type {
        Some(v) => if has_prefix(v, "application/json") {
            Encoding::Json
        } else if has_prefix(v, "application/x-msgpack") {
            Encoding::Msgpack
        } else {
            Encoding::Text
        },
        None => Encoding::Text,
    }
}

/// Undoes at most one layer of compression, chosen by the response's
/// `Content-Encoding`; an unknown or missing coding passes the body through.
pub fn uncompress(content_encoding: Option<&str>, body: &[u8]) -> (r: Result<Vec<u8>, VkApiError>)
    ensures
        match r {
            Ok(v) => uncompressed(content_encoding, body@) == Some(v@),
            Err(e) => uncompressed(content_encoding, body@) is None && e is IO,
        },
{
    match content_compression(content_encoding) {
        Compression::Zstd => match zstd_decode(body) {
            Ok(v) => Ok(v),
            Err(_) => Err(VkApiError::IO(String::from_str("corrupt zstd stream"))),
        },
        Compression::Gzip => match gzip_decode(body) {
            Ok(v) => Ok(v),
            Err(_) => Err(VkApiError::IO(String::from_str("corrupt gzip stream"))),
        },
        Compression::Identity => Ok(slice_to_vec(body)),
    }
}

/// A decoded response body, held as JSON text, with the format it came in.
#[derive(Clone, Debug)]
pub struct Document {
    pub format: Encoding,
    pub json: Vec<u8>,
}

/// Decodes an uncompressed body in the format its `Content-Type` declares.
/// A type naming no known format fails with `BadEncoding`, whatever the body.
pub fn decode_body(content_type: Option<&str>, body: &[u8]) -> (r: Result<Document, VkApiError>)
    ensures
        declared_format(content_type) == Encoding::Text ==> r == Err::<Document, VkApiError>(
            VkApiError::ResponseDeserialize(ResponseDeserialize::BadEncoding),
        ),
        declared_format(content_type) != Encoding::Text ==> match r {
            Ok(d) => d.format == declared_format(content_type) && document_json(
                d.format,
                body@,
            ) == Some(d.json@),
            Err(e) => document_json(declared_format(content_type), body@) is None && e
                == malformed(declared_format(content_type)),
        },
{
    let format = content_format(content_type);
    match format {
        Encoding::Json => Ok(Document { format, json: slice_to_vec(body) }),
        Encoding::Msgpack => match msgpack_to_json(body) {
            Ok(json) => Ok(Document { format, json }),
            Err(_) => Err(VkApiError::ResponseDeserialize(ResponseDeserialize::MsgPack)),
        },
        Encoding::Text => Err(VkApiError::ResponseDeserialize(ResponseDeserialize::BadEncoding)),
    }
}

} // verus!

verus! {

/// The JSON text of a received body: its declared format must be known,
/// its declared compression undone and its format decoded. `None` when any
/// step fails.
pub open spec fn received_document(
    content_type: Option<&str>,
    content_encoding: Option<&str>,
    body: Seq<u8>,
) -> Option<Seq<u8>> {
    let f = declared_format(content_type);
    if f == Encoding::Text {
        None
    } else {
        match uncompressed(content_encoding, body) {
            Some(raw) => document_json(f, raw),
            None => None,
        }
    }
}

/// `r` is the error that reading a received body gives, where it fails:
/// `BadEncoding` for an unknown format (checked first, whatever the body),
/// and otherwise the declared format's own error, whether the declared
/// decompressor or the format's decoder rejects the body.
pub open spec fn read_failure<T>(
    content_type: Option<&str>,
    content_encoding: Option<&str>,
    body: Seq<u8>,
    r: Result<T, VkApiError>,
) -> bool {
    let f = declared_format(content_type);
    if f == Encoding::Text {
        r == Err::<T, VkApiError>(VkApiError::ResponseDeserialize(ResponseDeserialize::BadEncoding))
    } else {
        r == Err::<T, VkApiError>(malformed(f))
    }
}

/// Reads a received body into a document, trusting the headers the server
/// returned: the format its `Content-Type` declares is checked first, then
/// the compression its `Content-Encoding` declares is undone, then the
/// format is decoded. A body that fails either step is a malformed body of
/// the declared format.
pub fn read_document(content_type: Option<&str>, content_encoding: Option<&str>, body: &[u8]) -> (r:
    Result<Document, VkApiError>)
    ensures
        match received_document(content_type, content_encoding, body@) {
            Some(doc) => r matches Ok(d) && d.json@ == doc && d.format == declared_format(
                content_type,
            ),
            None => read_failure(content_type, content_encoding, body@, r),
        },
{
    let format = content_format(content_type);
    if format == Encoding::Text {
        return Err(VkApiError::ResponseDeserialize(ResponseDeserialize::BadEncoding));
    }
    let raw = match uncompress(content_encoding, body) {
        Ok(raw) => raw,
        Err(_) => {
            let fault = if format == Encoding::Msgpack {
                ResponseDeserialize::MsgPack
            } else {
                ResponseDeserialize::Json
            };
            return Err(VkApiError::ResponseDeserialize(fault));
        },
    };
    decode_body(content_type, raw.as_slice())
}

} // verus!
