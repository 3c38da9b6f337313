//! Properties of the decoding pipeline that relate several of its parts.

use vstd::prelude::*;
use crate::codec::{
    declared_compression, declared_format, document_json, received_document, uncompressed, Document,
};
use crate::envelope::api_response;
use crate::errors::{ResponseDeserialize, VkApiError};
use crate::json::{json_opt_u64, json_text};
use crate::longpoll::{longpoll_response, ts_value, LongPollSuccess};
use crate::profile::{accept_encoding_text, accept_text, Compression, Encoding};
use crate::text::{decimal, starts_with};

verus! {

/// A response whose `Content-Encoding` is `identity`, or absent, is passed
/// through undecompressed, whatever compression the client asked for: its
/// body is decoded exactly as if it had never been compressed, and decoding
/// succeeds whenever the body is valid in its declared format.
pub proof fn lemma_identity_is_passthrough(
    content_type: Option<&str>,
    content_encoding: Option<&str>,
    body: Seq<u8>,
)
    requires
        content_encoding is None || content_encoding->0@ == "identity"@,
    ensures
        uncompressed(content_encoding, body) == Some(body),
        declared_format(content_type) != Encoding::Text ==> received_document(
            content_type,
            content_encoding,
            body,
        ) == document_json(declared_format(content_type), body),
{
    reveal_strlit("identity");
    reveal_strlit("zstd");
    reveal_strlit("gzip");
    if content_encoding is Some {
        assert(content_encoding->0@ != "zstd"@) by {
            assert(content_encoding->0@.len() != "zstd"@.len());
        }
        assert(content_encoding->0@ != "gzip"@) by {
            assert(content_encoding->0@.len() != "gzip"@.len());
        }
    }
}

/// A peer that declares back the compression and the format the client
/// asked for gets the matching decompressor and decoder: the body is read
/// as the document of that format with that compression undone. (That the
/// codecs themselves invert the peer's encoders is theirs to show.)
pub proof fn lemma_echoed_negotiation_selects_matching_codecs(
    compression: Compression,
    format: Encoding,
    content_encoding: &str,
    content_type: &str,
    body: Seq<u8>,
)
    requires
        format != Encoding::Text,
        content_encoding@ == accept_encoding_text(compression),
        content_type@ == accept_text(format),
    ensures
        declared_compression(Some(content_encoding)) == compression,
        declared_format(Some(content_type)) == format,
        received_document(Some(content_type), Some(content_encoding), body) == match uncompressed(
            Some(content_encoding),
            body,
        ) {
            Some(raw) => document_json(format, raw),
            None => None,
        },
{
    reveal_strlit("zstd");
    reveal_strlit("gzip");
    reveal_strlit("identity");
    reveal_strlit("application/json");
    reveal_strlit("application/x-msgpack");
    assert("zstd"@ != "gzip"@) by {
        assert("zstd"@[0] != "gzip"@[0]);
    }
    assert("identity"@.len() != "zstd"@.len());
    assert("identity"@.len() != "gzip"@.len());
    let json = "application/json"@;
    let msgpack = "application/x-msgpack"@;
    assert(json.subrange(0, json.len() as int) =~= json);
    assert(msgpack.subrange(0, msgpack.len() as int) =~= msgpack);
    assert(!starts_with(msgpack, json)) by {
        assert(msgpack.subrange(0, json.len() as int)[12] != json[12]);
    }
}

/// A response whose `Content-Type` names no known format (such as
/// `text/html`) fails with `BadEncoding`, whatever its encoding and body,
/// both as an API response and as a long-poll response.
pub proof fn lemma_unknown_format_is_bad_encoding(
    content_type: Option<&str>,
    content_encoding: Option<&str>,
    body: Seq<u8>,
    api: Result<Document, VkApiError>,
    poll: Result<LongPollSuccess<Document>, VkApiError>,
)
    requires
        declared_format(content_type) == Encoding::Text,
        api_response(content_type, content_encoding, body, api),
        longpoll_response(content_type, content_encoding, body, poll),
    ensures
        api == Err::<Document, VkApiError>(
            VkApiError::ResponseDeserialize(ResponseDeserialize::BadEncoding),
        ),
        poll == Err::<LongPollSuccess<Document>, VkApiError>(
            VkApiError::ResponseDeserialize(ResponseDeserialize::BadEncoding),
        ),
{
    assert(received_document(content_type, content_encoding, body) is None);
}

/// `text/html` is a `Content-Type` that names no known format.
pub proof fn lemma_html_is_unknown_format(content_type: &str)
    requires
        content_type@ == "text/html"@,
    ensures
        declared_format(Some(content_type)) == Encoding::Text,
{
    reveal_strlit("text/html");
    reveal_strlit("application/json");
    reveal_strlit("application/x-msgpack");
    assert(content_type@[0] != "application/json"@[0]);
    assert(content_type@.len() < "application/json"@.len());
    assert(content_type@.len() < "application/x-msgpack"@.len());
}

/// A cursor that arrives as an integer and one that arrives as the string
/// of its decimal digits are read as the same cursor: those digits.
pub proof fn lemma_ts_number_and_text_agree(number: Seq<u8>, text: Seq<u8>, n: u64)
    requires
        json_text(number) is None,
        json_opt_u64(number) == Some(Some(n)),
        json_text(text) == Some(decimal(n as nat)),
    ensures
        ts_value(number) == ts_value(text),
        ts_value(number) == Some(decimal(n as nat)),
{
}

} // verus!
