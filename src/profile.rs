//! The client's encoding profile: which compression and which wire format it
//! asks the server for, and the request headers that say so.

use vstd::prelude::*;

verus! {

/// Compression of response bodies.
#[derive(Clone, Copy, Debug, PartialEq, Eq, Structural)]
pub enum Compression {
    Zstd,
    Gzip,
    /// No compression: the `identity` coding.
    Identity,
}

/// Wire format of response bodies.
#[derive(Clone, Copy, Debug, PartialEq, Eq, Structural)]
pub enum Encoding {
    Msgpack,
    Json,
    /// No structured format: plain text.
    Text,
}

/// The `Accept-Encoding` value for a compression.
pub open spec fn accept_encoding_text(c: Compression) -> Seq<char> {
    match c {
        Compression::Zstd => "zstd"@,
        Compression::Gzip => "gzip"@,
        Compression::Identity => "identity"@,
    }
}

/// The `Accept` value for a format.
pub open spec fn accept_text(f: Encoding) -> Seq<char> {
    match f {
        Encoding::Msgpack => "application/x-msgpack"@,
        Encoding::Json => "application/json"@,
        Encoding::Text => "text/*"@,
    }
}

impl Compression {
    /// The `Accept-Encoding` header value that asks for this compression.
    pub fn accept_encoding(&self) -> (r: &'static str)
        ensures
            r@ == accept_encoding_text(*self),
    {
        match self {
            Compression::Zstd => "zstd",
            Compression::Gzip => "gzip",
            Compression::Identity => "identity",
        }
    }
}

impl Encoding {
    /// The `Accept` header value that asks for this format.
    pub fn accept(&self) -> (r: &'static str)
        ensures
            r@ == accept_text(*self),
    {
        match self {
            Encoding::Msgpack => "application/x-msgpack",
            Encoding::Json => "application/json",
            Encoding::Text => "text/*",
        }
    }
}

/// An HTTP request ready to be sent: a POST of `form` (as
/// `application/x-www-form-urlencoded`) when there is one, else a GET.
#[derive(Clone, Debug)]
pub struct PreparedRequest {
    pub url: String,
    /// The `Accept-Encoding` header.
    pub accept_encoding: &'static str,
    /// The `Accept` header.
    pub accept: &'static str,
    /// The `Authorization` header, when the request carries one.
    pub authorization: Option<String>,
    /// The url-encoded body.
    pub form: Option<String>,
}

} // verus!
