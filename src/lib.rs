//! Client library for the VK API: request negotiation, response decoding
//! (decompression, format dispatch, envelope resolution) and the long-poll
//! resumption state machine, with their contracts proved by Verus.

pub mod builder;
pub mod codec;
pub mod envelope;
pub mod errors;
pub mod form;
pub mod json;
pub mod laws;
pub mod longpoll;
pub mod profile;
pub mod structs;
pub mod text;
pub mod upload;

pub use builder::{VkApiBuilder, VkApiInner};
pub use codec::{content_compression, content_format, decode_body, read_document, uncompress, Document};
pub use envelope::{decode_api_response, resolve_api_envelope};
pub use errors::{ResponseDeserialize, VkApiError, VkError};
pub use form::encode_form;
pub use longpoll::{
    decode_longpoll_response, LongPollError, LongPollRequest, LongPollSession, LongPollSuccess,
};
pub use profile::{Compression, Encoding, PreparedRequest};
pub use structs::{List, ListItem, Version};
pub use text::{decimal_string, signed_decimal_string};
pub use upload::decode_upload_response;
