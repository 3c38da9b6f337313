//! The library's error taxonomy.

use vstd::prelude::*;
use crate::longpoll::LongPollError;
use crate::text::signed_decimal_string;

verus! {

/// A business-logic error reported by the VK backend itself (an expired
/// token, invalid parameters), as opposed to a transport or decoding fault.
#[derive(Clone, Debug)]
pub struct VkError {
    pub error_code: i16,
    pub error_msg: String,
}

impl VkError {
    pub fn new(error_code: i16, error_msg: String) -> (r: VkError)
        ensures
            r.error_code == error_code,
            r.error_msg == error_msg,
    {
        VkError { error_code, error_msg }
    }

    pub fn code(&self) -> (r: i16)
        ensures
            r == self.error_code,
    {
        self.error_code
    }

    pub fn msg(&self) -> (r: &str)
        ensures
            r@ == self.error_msg@,
    {
        self.error_msg.as_str()
    }

    /// A human-readable description of the error.
    pub fn to_message(&self) -> (r: String)
        ensures
            r@ == "vk api error occurred. Code: "@ + crate::text::signed_decimal(
                self.error_code as int,
            ) + ", message: "@ + self.error_msg@,
    {
        let code = signed_decimal_string(self.error_code as i64);
        String::from_str("vk api error occurred. Code: ").concat(code.as_str()).concat(
            ", message: ",
        ).concat(self.error_msg.as_str())
    }
}

/// Why a response body could not be turned into a value.
#[derive(Clone, Copy, Debug, PartialEq, Eq, Structural)]
pub enum ResponseDeserialize {
    /// The body was declared JSON but is malformed or of an unexpected shape.
    Json,
    /// The body was declared MessagePack but is malformed or of an unexpected shape.
    MsgPack,
    /// The declared `Content-Type` names no format this client decodes.
    BadEncoding,
}

impl ResponseDeserialize {
    /// A human-readable description of the error.
    pub fn to_message(&self) -> (r: &'static str)
        ensures
            r@ == match *self {
                ResponseDeserialize::Json => "malformed json response body"@,
                ResponseDeserialize::MsgPack => "malformed msgpack response body"@,
                ResponseDeserialize::BadEncoding => "vk api bad encoding or compression returned"@,
            },
    {
        match self {
            ResponseDeserialize::Json => "malformed json response body",
            ResponseDeserialize::MsgPack => "malformed msgpack response body",
            ResponseDeserialize::BadEncoding => "vk api bad encoding or compression returned",
        }
    }
}

/// Errors of an API call or a long-poll subscription.
/// `VkApiError::Vk` is an error of the service's business logic; the others
/// concern what surrounds the request: the network, encoding and decoding.
#[derive(Clone, Debug)]
pub enum VkApiError {
    /// The transport failed; the text is the transport's description.
    Request(String),
    /// The request parameters could not be flattened into key-value pairs.
    RequestSerialize(String),
    /// The response body could not be decoded.
    ResponseDeserialize(ResponseDeserialize),
    /// The service rejected the request.
    Vk(VkError),
    /// The response body could not be decompressed or read as text.
    IO(String),
    /// The long-poll server reported an error.
    LongPoll(LongPollError),
}

impl VkApiError {
    /// A human-readable description of the error.
    pub fn to_message(&self) -> (r: String)
        ensures
            match self {
                VkApiError::Request(t) => r@ == t@,
                VkApiError::RequestSerialize(t) => r@ == t@,
                VkApiError::IO(t) => r@ == t@,
                VkApiError::ResponseDeserialize(d) => r@ == match *d {
                    ResponseDeserialize::Json => "malformed json response body"@,
                    ResponseDeserialize::MsgPack => "malformed msgpack response body"@,
                    ResponseDeserialize::BadEncoding => "vk api bad encoding or compression returned"@,
                },
                VkApiError::Vk(e) => r@ == "vk api error occurred. Code: "@ + crate::text::signed_decimal(
                    e.error_code as int,
                ) + ", message: "@ + e.error_msg@,
                VkApiError::LongPoll(e) => r@ == "long poll error occured, code: "@
                    + crate::text::decimal(e.failed as nat),
            },
    {
        match self {
            VkApiError::Request(t) => String::from_str(t.as_str()),
            VkApiError::RequestSerialize(t) => String::from_str(t.as_str()),
            VkApiError::IO(t) => String::from_str(t.as_str()),
            VkApiError::ResponseDeserialize(d) => String::from_str(d.to_message()),
            VkApiError::Vk(e) => e.to_message(),
            VkApiError::LongPoll(e) => e.to_message(),
        }
    }
}

} // verus!
