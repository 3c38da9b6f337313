//! Client configuration and the preparation of API calls.

use vstd::prelude::*;
use crate::form::{append_pairs, encode_form, pair, pairs_view, urlencoded};
use crate::profile::{accept_encoding_text, accept_text, Compression, Encoding, PreparedRequest};
use crate::structs::{version_text, Version};

verus! {

/// The configuration of a client: the profile it negotiates, the token it
/// authenticates with, the API version and the API's domain.
#[derive(Clone, Debug)]
pub struct VkApiInner {
    pub encoding: Compression,
    pub format: Encoding,
    pub access_token: String,
    pub version: Version,
    pub domain: String,
}

/// The URL of API method `method`: the `.msgpack` suffix asks the server
/// for MessagePack when that is the configured format.
pub open spec fn method_url_text(c: VkApiInner, method: Seq<char>) -> Seq<char> {
    let base = "https://"@ + c.domain@ + "/method/"@ + method;
    if c.format == Encoding::Msgpack {
        base + ".msgpack"@
    } else {
        base
    }
}

/// The body of a call: the version and the access token, then the
/// method's own parameters.
pub open spec fn call_params(
    c: VkApiInner,
    params: Seq<(Seq<char>, Seq<char>)>,
    version: Version,
) -> Seq<(Seq<char>, Seq<char>)> {
    seq![("v"@, version_text(version)), ("access_token"@, c.access_token@)] + params
}

impl VkApiInner {
    /// The URL of API method `method`.
    pub fn method_url(&self, method: &str) -> (r: String)
        ensures
            r@ == method_url_text(*self, method@),
    {
        let base = String::from_str("https://").concat(self.domain.as_str()).concat(
            "/method/",
        ).concat(method);
        if self.format == Encoding::Msgpack {
            base.concat(".msgpack")
        } else {
            base
        }
    }

    /// The request for a call of API method `method` with the given
    /// parameters, at API version `version`: a POST of the url-encoded
    /// parameters, carrying the token as a bearer, and asking for the
    /// configured compression and format.
    pub fn prepare_call(&self, method: &str, params: &Vec<(String, String)>, version: Version) -> (r:
        PreparedRequest)
        ensures
            r.url@ == method_url_text(*self, method@),
            r.accept_encoding@ == accept_encoding_text(self.encoding),
            r.accept@ == accept_text(self.format),
            r.authorization matches Some(a) && a@ == "Bearer "@ + self.access_token@,
            r.form matches Some(f) && f@ == urlencoded(
                call_params(*self, pairs_view(*params), version),
            ),
    {
        let mut body: Vec<(String, String)> = Vec::new();
        body.push(pair("v", version.to_string()));
        body.push(pair("access_token", self.access_token.clone()));
        let ghost head = pairs_view(body);
        append_pairs(&mut body, params);
        assert(pairs_view(body) =~= call_params(*self, pairs_view(*params), version)) by {
            assert(head =~= seq![("v"@, version_text(version)), ("access_token"@, self.access_token@)]);
        }
        PreparedRequest {
            url: self.method_url(method),
            accept_encoding: self.encoding.accept_encoding(),
            accept: self.format.accept(),
            authorization: Some(String::from_str("Bearer ").concat(self.access_token.as_str())),
            form: Some(encode_form(&body)),
        }
    }
}

/// Builds a client configuration. The defaults: zstd compression, the
/// MessagePack format, API version 5.131 and the domain `api.vk.com`.
#[derive(Clone, Debug)]
pub struct VkApiBuilder {
    inner: VkApiInner,
}

impl VkApiBuilder {
    /// The configuration built so far.
    pub closed spec fn config(&self) -> VkApiInner {
        self.inner
    }

    /// A builder for the given access token, with the default settings.
    pub fn new(access_token: String) -> (r: VkApiBuilder)
        ensures
            r.config().access_token == access_token,
            r.config().encoding == Compression::Zstd,
            r.config().format == Encoding::Msgpack,
            r.config().version == Version(5, 131),
            r.config().domain@ == "api.vk.com"@,
    {
        VkApiBuilder {
            inner: VkApiInner {
                access_token,
                version: Version::default(),
                domain: String::from_str("api.vk.com"),
                format: Encoding::Msgpack,
                encoding: Compression::Zstd,
            },
        }
    }

    /// Replaces the access token.
    pub fn with_access_token(self, access_token: String) -> (r: VkApiBuilder)
        ensures
            r.config() == (VkApiInner { access_token, ..self.config() }),
    {
        let mut b = self;
        b.inner.access_token = access_token;
        b
    }

    /// Replaces the API version (5.131 by default).
    pub fn with_version(self, version: Version) -> (r: VkApiBuilder)
        ensures
            r.config() == (VkApiInner { version, ..self.config() }),
    {
        let mut b = self;
        b.inner.version = version;
        b
    }

    /// Replaces the API domain (`api.vk.com` by default).
    pub fn with_domain(self, domain: String) -> (r: VkApiBuilder)
        ensures
            r.config() == (VkApiInner { domain, ..self.config() }),
    {
        let mut b = self;
        b.inner.domain = domain;
        b
    }

    /// Replaces the compression asked for (zstd by default).
    pub fn with_compression(self, compression: Compression) -> (r: VkApiBuilder)
        ensures
            r.config() == (VkApiInner { encoding: compression, ..self.config() }),
    {
        let mut b = self;
        b.inner.encoding = compression;
        b
    }

    /// Replaces the format asked for (MessagePack by default).
    pub fn with_encoding(self, encoding: Encoding) -> (r: VkApiBuilder)
        ensures
            r.config() == (VkApiInner { format: encoding, ..self.config() }),
    {
        let mut b = self;
        b.inner.format = encoding;
        b
    }

    /// The configuration built so far.
    pub fn inner(&self) -> (r: &VkApiInner)
        ensures
            *r == self.config(),
    {
        &self.inner
    }

    /// The configuration built.
    pub fn build(self) -> (r: VkApiInner)
        ensures
            r == self.config(),
    {
        self.inner
    }
}

} // verus!
