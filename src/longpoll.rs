//! Long-poll subscriptions: the request, the two shapes of a response, and
//! the resumption state machine that turns a sequence of polls into an
//! ordered stream of updates.
//!
//! The session decides; whoever drives it performs each poll. It asks the
//! session for the next poll's URL, sends it, decodes the reply with
//! `decode_longpoll_response` and hands the outcome back to the session,
//! which replaces its cursor and says what to emit.

use vstd::prelude::*;
use crate::codec::{
    declared_format, malformed, read_document, read_failure, received_document, Document,
};
use crate::errors::{ResponseDeserialize, VkApiError};
use crate::form::{append_pairs, encode_form, pair, pairs_view, urlencoded};
use crate::json::{
    field, find_field, json_array, json_opt_u64, json_object, json_text, read_array, read_object,
    read_opt_u64, read_text,
};
use crate::profile::{accept_encoding_text, accept_text, Compression, Encoding, PreparedRequest};
use crate::text::{decimal, decimal_string, has_prefix, starts_with};

verus! {

/// A long-poll subscription request.
/// * `server`, `key` and `ts` come from the VK API method that opens the subscription;
/// * `wait` is the longest time in seconds the server holds a poll open (25 is usual);
/// * `additional_params` are sent along with each poll (a `mode`, a `version`).
#[derive(Clone, Debug)]
pub struct LongPollRequest {
    pub server: String,
    pub key: String,
    pub ts: String,
    pub wait: usize,
    pub additional_params: Vec<(String, String)>,
}

/// The query parameters of a poll, in order.
pub open spec fn poll_params(r: LongPollRequest) -> Seq<(Seq<char>, Seq<char>)> {
    seq![("key"@, r.key@), ("ts"@, r.ts@), ("wait"@, decimal(r.wait as nat))] + pairs_view(
        r.additional_params,
    )
}

/// The server string names a scheme: it begins with `http://` or `https://`.
pub open spec fn has_scheme(server: Seq<char>) -> bool {
    starts_with(server, "http://"@) || starts_with(server, "https://"@)
}

/// The URL of a poll: the server, with `https://` in front unless it names
/// a scheme, then the query.
pub open spec fn poll_url_text(r: LongPollRequest) -> Seq<char> {
    let base = if has_scheme(r.server@) {
        r.server@
    } else {
        "https://"@ + r.server@
    };
    base + "?act=a_check&"@ + urlencoded(poll_params(r))
}

impl LongPollRequest {
    /// The URL of the poll this request describes.
    pub fn poll_url(&self) -> (r: String)
        ensures
            r@ == poll_url_text(*self),
    {
        let mut params: Vec<(String, String)> = Vec::new();
        params.push(pair("key", self.key.clone()));
        params.push(pair("ts", self.ts.clone()));
        params.push(pair("wait", decimal_string(self.wait as u64)));
        let ghost head = pairs_view(params);
        append_pairs(&mut params, &self.additional_params);
        assert(pairs_view(params) =~= poll_params(*self)) by {
            assert(head =~= seq![("key"@, self.key@), ("ts"@, self.ts@), ("wait"@, decimal(self.wait as nat))]);
        }
        let query = encode_form(&params);
        let server = self.server.as_str();
        let base = if has_prefix(server, "http://") || has_prefix(server, "https://") {
            self.server.clone()
        } else {
            String::from_str("https://").concat(self.server.as_str())
        };
        base.concat("?act=a_check&").concat(query.as_str())
    }

    /// The poll this request describes: a GET of `poll_url` that asks for
    /// gzip and JSON, the best the long-poll servers offer.
    pub fn prepare(&self) -> (r: PreparedRequest)
        ensures
            r.url@ == poll_url_text(*self),
            r.accept_encoding@ == accept_encoding_text(Compression::Gzip),
            r.accept@ == accept_text(Encoding::Json),
            r.authorization is None,
            r.form is None,
    {
        PreparedRequest {
            url: self.poll_url(),
            accept_encoding: Compression::Gzip.accept_encoding(),
            accept: Encoding::Json.accept(),
            authorization: None,
            form: None,
        }
    }
}

/// A chunk of long-poll updates, and the cursor to resume from after them.
#[derive(Clone, Debug)]
pub struct LongPollSuccess<R> {
    pub ts: String,
    pub updates: Vec<R>,
}

impl<R> LongPollSuccess<R> {
    pub fn new(ts: String, updates: Vec<R>) -> (r: LongPollSuccess<R>)
        ensures
            r.ts == ts,
            r.updates == updates,
    {
        LongPollSuccess { ts, updates }
    }

    /// The cursor to resume from.
    pub fn ts(&self) -> (r: &str)
        ensures
            r@ == self.ts@,
    {
        self.ts.as_str()
    }

    /// The updates, in the order the server sent them.
    pub fn updates(&self) -> (r: &Vec<R>)
        ensures
            r == self.updates,
    {
        &self.updates
    }

    /// The cursor and the updates, taken apart.
    pub fn into_parts(self) -> (r: (String, Vec<R>))
        ensures
            r.0 == self.ts,
            r.1 == self.updates,
    {
        (self.ts, self.updates)
    }
}

/// An error reported by the long-poll server. When it carries a replacement
/// `ts` the condition is recoverable: the subscription resumes from there.
/// Without one it is fatal (an expired key, an unsupported protocol
/// version, for which the server may give the versions it supports).
#[derive(Clone, Debug)]
pub struct LongPollError {
    pub failed: usize,
    pub ts: Option<String>,
    pub min_version: Option<usize>,
    pub max_version: Option<usize>,
}

impl LongPollError {
    /// A human-readable description of the error.
    pub fn to_message(&self) -> (r: String)
        ensures
            r@ == "long poll error occured, code: "@ + decimal(self.failed as nat),
    {
        let code = decimal_string(self.failed as u64);
        String::from_str("long poll error occured, code: ").concat(code.as_str())
    }
}

/// A cursor value as it arrives: a string, or an unsigned integer that is
/// read as its decimal digits. `None` for anything else.
pub open spec fn ts_value(raw: Seq<u8>) -> Option<Seq<char>> {
    match json_text(raw) {
        Some(s) => Some(s),
        None => match json_opt_u64(raw) {
            Some(Some(n)) => Some(decimal(n as nat)),
            _ => None,
        },
    }
}

/// An optional unsigned member: `Some(None)` when absent or `null`,
/// `Some(Some(n))` for an integer that fits a `usize`, `None` otherwise.
pub open spec fn optional_count(members: Seq<(Seq<char>, Seq<u8>)>, key: Seq<char>) -> Option<
    Option<usize>,
> {
    match field(members, key) {
        None => Some(None),
        Some(v) => match json_opt_u64(v) {
            Some(None) => Some(None),
            Some(Some(n)) => if n <= usize::MAX {
                Some(Some(n as usize))
            } else {
                None
            },
            None => None,
        },
    }
}

/// An optional cursor member: `Some(None)` when absent, `Some(Some(t))` for
/// a cursor value, `None` otherwise.
pub open spec fn optional_ts(members: Seq<(Seq<char>, Seq<u8>)>) -> Option<Option<Seq<char>>> {
    match field(members, "ts"@) {
        None => Some(None),
        Some(v) => match ts_value(v) {
            Some(t) => Some(Some(t)),
            None => None,
        },
    }
}

/// The cursor and updates of a success object, when it is one: a cursor
/// value under `ts` and an array under `updates`.
pub open spec fn updates_shape(members: Seq<(Seq<char>, Seq<u8>)>) -> Option<
    (Seq<char>, Seq<Seq<u8>>),
> {
    match (field(members, "ts"@), field(members, "updates"@)) {
        (Some(t), Some(u)) => match (ts_value(t), json_array(u)) {
            (Some(ts), Some(us)) => Some((ts, us)),
            _ => None,
        },
        _ => None,
    }
}

/// The fields of an error object, when it is one: an integer `failed`, and
/// the optional `ts`, `min_version` and `max_version`.
pub open spec fn failure_shape(members: Seq<(Seq<char>, Seq<u8>)>) -> Option<
    (usize, Option<Seq<char>>, Option<usize>, Option<usize>),
> {
    match (optional_count(members, "failed"@), optional_ts(members)) {
        (Some(Some(failed)), Some(ts)) => match (
            optional_count(members, "min_version"@),
            optional_count(members, "max_version"@),
        ) {
            (Some(lo), Some(hi)) => Some((failed, ts, lo, hi)),
            _ => None,
        },
        _ => None,
    }
}

/// What a long-poll response document holds. The shape is told by which
/// member is present: `updates` alone gives `Some(Ok(..))` when the object
/// is a well-formed success, `failed` alone gives `Some(Err(..))` when it is
/// a well-formed error. `None` when both members are present, when neither
/// is, or when the object is malformed for its shape.
pub open spec fn longpoll_envelope(doc: Seq<u8>) -> Option<
    Result<(Seq<char>, Seq<Seq<u8>>), (usize, Option<Seq<char>>, Option<usize>, Option<usize>)>,
> {
    match json_object(doc) {
        None => None,
        Some(members) => match (field(members, "updates"@), field(members, "failed"@)) {
            (Some(_), None) => match updates_shape(members) {
                Some(s) => Some(Ok(s)),
                None => None,
            },
            (None, Some(_)) => match failure_shape(members) {
                Some(e) => Some(Err(e)),
                None => None,
            },
            _ => None,
        },
    }
}

/// `e` holds the fields of an error object.
pub open spec fn error_fields(
    e: LongPollError,
    fields: (usize, Option<Seq<char>>, Option<usize>, Option<usize>),
) -> bool {
    &&& e.failed == fields.0
    &&& match fields.1 {
        Some(t) => e.ts matches Some(s) && s@ == t,
        None => e.ts is None,
    }
    &&& e.min_version == fields.2
    &&& e.max_version == fields.3
}

/// `r` is what resolving the long-poll response document `doc` of format
/// `f` gives: the updates, each as a document of format `f`, or the error.
pub open spec fn longpoll_resolved(
    r: Result<LongPollSuccess<Document>, VkApiError>,
    f: Encoding,
    doc: Seq<u8>,
) -> bool {
    match longpoll_envelope(doc) {
        Some(Ok((ts, updates))) => r matches Ok(s) && s.ts@ == ts && s.updates@.len()
            == updates.len() && forall|i: int|
            0 <= i < updates.len() ==> (#[trigger] s.updates@[i]).json@ == updates[i]
                && s.updates@[i].format == f,
        Some(Err(fields)) => r matches Err(VkApiError::LongPoll(e)) && error_fields(e, fields),
        None => r == Err::<LongPollSuccess<Document>, VkApiError>(malformed(f)),
    }
}

/// Reads a cursor value: a string, or an unsigned integer in decimal.
pub fn read_ts(raw: &[u8]) -> (r: Option<String>)
    ensures
        match ts_value(raw@) {
            Some(t) => r matches Some(s) && s@ == t,
            None => r is None,
        },
{
    match read_text(raw) {
        Ok(s) => Some(s),
        Err(_) => match read_opt_u64(raw) {
            Ok(Some(n)) => Some(decimal_string(n)),
            _ => None,
        },
    }
}

/// Reads an optional unsigned member of an object: `Some(None)` when absent
/// or `null`.
pub fn read_optional_count(members: &Vec<(String, Vec<u8>)>, key: &str) -> (r: Option<Option<usize>>)
    ensures
        r == optional_count(crate::json::members_view(*members), key@),
{
    match find_field(members, key) {
        None => Some(None),
        Some(v) => match read_opt_u64(v.as_slice()) {
            Ok(None) => Some(None),
            Ok(Some(n)) => if n <= usize::MAX as u64 {
                Some(Some(n as usize))
            } else {
                None
            },
            Err(_) => None,
        },
    }
}

/// Reads the optional `ts` member of an object: `Some(None)` when absent.
pub fn read_optional_ts(members: &Vec<(String, Vec<u8>)>) -> (r: Option<Option<String>>)
    ensures
        match optional_ts(crate::json::members_view(*members)) {
            Some(Some(t)) => r matches Some(Some(s)) && s@ == t,
            Some(None) => r matches Some(None),
            None => r is None,
        },
{
    match find_field(members, "ts") {
        None => Some(None),
        Some(v) => match read_ts(v.as_slice()) {
            Some(t) => Some(Some(t)),
            None => None,
        },
    }
}

/// Reads the `ts` member of a JSON object, which must be there: a string,
/// or an unsigned integer in decimal.
pub fn read_ts_member(json: &[u8]) -> (r: Option<String>)
    ensures
        match json_object(json@) {
            Some(members) => match field(members, "ts"@) {
                Some(raw) => match ts_value(raw) {
                    Some(t) => r matches Some(s) && s@ == t,
                    None => r is None,
                },
                None => r is None,
            },
            None => r is None,
        },
{
    let members = match read_object(json) {
        Ok(m) => m,
        Err(_) => return None,
    };
    match find_field(&members, "ts") {
        Some(raw) => read_ts(raw.as_slice()),
        None => None,
    }
}

/// Reads the optional `ts` member of a JSON object: `Some(None)` when it is
/// absent, `None` when `json` is not an object or the member no cursor value.
pub fn read_optional_ts_member(json: &[u8]) -> (r: Option<Option<String>>)
    ensures
        match json_object(json@) {
            Some(members) => match optional_ts(members) {
                Some(Some(t)) => r matches Some(Some(s)) && s@ == t,
                Some(None) => r matches Some(None),
                None => r is None,
            },
            None => r is None,
        },
{
    match read_object(json) {
        Ok(members) => read_optional_ts(&members),
        Err(_) => None,
    }
}

fn read_updates(members: &Vec<(String, Vec<u8>)>, format: Encoding) -> (r: Option<
    LongPollSuccess<Document>,
>)
    ensures
        match updates_shape(crate::json::members_view(*members)) {
            Some((ts, updates)) => r matches Some(s) && s.ts@ == ts && s.updates@.len()
                == updates.len() && forall|i: int|
                0 <= i < updates.len() ==> (#[trigger] s.updates@[i]).json@ == updates[i]
                    && s.updates@[i].format == format,
            None => r is None,
        },
{
    let t = match find_field(members, "ts") {
        Some(t) => t,
        None => return None,
    };
    let u = match find_field(members, "updates") {
        Some(u) => u,
        None => return None,
    };
    let ts = match read_ts(t.as_slice()) {
        Some(ts) => ts,
        None => return None,
    };
    let mut raw = match read_array(u.as_slice()) {
        Ok(a) => a,
        Err(_) => return None,
    };
    let ghost all = crate::json::elements_view(raw);
    let mut updates: Vec<Document> = Vec::new();
    while raw.len() > 0
        invariant
            updates@.len() + raw@.len() == all.len(),
            crate::json::elements_view(raw) == all.subrange(updates@.len() as int, all.len() as int),
            forall|i: int|
                0 <= i < updates@.len() ==> (#[trigger] updates@[i]).json@ == all[i]
                    && updates@[i].format == format,
        decreases raw@.len(),
    {
        let ghost before = raw;
        let json = raw.remove(0);
        assert(json@ == crate::json::elements_view(before)[0]);
        assert(crate::json::elements_view(raw) =~= crate::json::elements_view(before).drop_first());
        updates.push(Document { format, json });
    }
    Some(LongPollSuccess { ts, updates })
}

fn read_failure_fields(members: &Vec<(String, Vec<u8>)>) -> (r: Option<LongPollError>)
    ensures
        match failure_shape(crate::json::members_view(*members)) {
            Some(fields) => r matches Some(e) && error_fields(e, fields),
            None => r is None,
        },
{
    let failed = match read_optional_count(members, "failed") {
        Some(Some(k)) => k,
        _ => return None,
    };
    let ts = match read_optional_ts(members) {
        Some(ts) => ts,
        None => return None,
    };
    let min_version = match read_optional_count(members, "min_version") {
        Some(v) => v,
        None => return None,
    };
    let max_version = match read_optional_count(members, "max_version") {
        Some(v) => v,
        None => return None,
    };
    Some(LongPollError { failed, ts, min_version, max_version })
}

/// Resolves a decoded long-poll response into its updates or its error.
pub fn resolve_longpoll_envelope(doc: &Document) -> (r: Result<LongPollSuccess<Document>, VkApiError>)
    ensures
        longpoll_resolved(r, doc.format, doc.json@),
{
    let fault = if doc.format == Encoding::Msgpack {
        ResponseDeserialize::MsgPack
    } else {
        ResponseDeserialize::Json
    };
    let members = match read_object(doc.json.as_slice()) {
        Ok(m) => m,
        Err(_) => return Err(VkApiError::ResponseDeserialize(fault)),
    };
    let has_updates = find_field(&members, "updates").is_some();
    let has_failed = find_field(&members, "failed").is_some();
    if has_updates && !has_failed {
        match read_updates(&members, doc.format) {
            Some(s) => Ok(s),
            None => Err(VkApiError::ResponseDeserialize(fault)),
        }
    } else if has_failed && !has_updates {
        match read_failure_fields(&members) {
            Some(e) => Err(VkApiError::LongPoll(e)),
            None => Err(VkApiError::ResponseDeserialize(fault)),
        }
    } else {
        Err(VkApiError::ResponseDeserialize(fault))
    }
}

/// `r` is what decoding a long-poll response gives, from its `Content-Type`,
/// its `Content-Encoding` and its body as received.
pub open spec fn longpoll_response(
    content_type: Option<&str>,
    content_encoding: Option<&str>,
    body: Seq<u8>,
    r: Result<LongPollSuccess<Document>, VkApiError>,
) -> bool {
    match received_document(content_type, content_encoding, body) {
        Some(doc) => longpoll_resolved(r, declared_format(content_type), doc),
        None => read_failure(content_type, content_encoding, body, r),
    }
}

/// Decodes the response to a poll, through the same pipeline as an API
/// call: compression and format as the server declares them, then the
/// updates or the long-poll error.
pub fn decode_longpoll_response(
    content_type: Option<&str>,
    content_encoding: Option<&str>,
    body: &[u8],
) -> (r: Result<LongPollSuccess<Document>, VkApiError>)
    ensures
        longpoll_response(content_type, content_encoding, body@, r),
{
    match read_document(content_type, content_encoding, body) {
        Ok(doc) => resolve_longpoll_envelope(&doc),
        Err(e) => Err(e),
    }
}

/// The request with its cursor replaced by `ts`, all else kept.
pub open spec fn with_ts(r: LongPollRequest, ts: String) -> LongPollRequest {
    LongPollRequest { ts, ..r }
}

/// The replacement cursor an error carries, when it is a recoverable
/// long-poll error.
pub open spec fn recovery_ts(e: VkApiError) -> Option<String> {
    match e {
        VkApiError::LongPoll(le) => le.ts,
        _ => None,
    }
}

/// One step of a subscription: from the request of the poll just made and
/// its outcome, the request for the next poll, whether the subscription is
/// over, and the items it yields.
/// * updates: the cursor advances to the returned `ts`, and each update is
///   yielded, in the order received;
/// * a recoverable error: the cursor is replaced, and nothing is yielded;
/// * any other error: the error is yielded, and the subscription ends.
pub open spec fn tick<R>(
    request: LongPollRequest,
    outcome: Result<LongPollSuccess<R>, VkApiError>,
) -> (LongPollRequest, bool, Seq<Result<R, VkApiError>>) {
    match outcome {
        Ok(s) => (
            with_ts(request, s.ts),
            false,
            s.updates@.map_values(|u: R| Ok::<R, VkApiError>(u)),
        ),
        Err(e) => match recovery_ts(e) {
            Some(ts) => (with_ts(request, ts), false, Seq::empty()),
            None => (request, true, seq![Err::<R, VkApiError>(e)]),
        },
    }
}

/// A long-poll subscription in progress: the request for the next poll,
/// whose cursor each outcome replaces, until an error that is not
/// recoverable ends it. Once ended it issues no further poll.
pub struct LongPollSession {
    request: LongPollRequest,
    terminated: bool,
}

impl LongPollSession {
    /// The request for the next poll.
    pub closed spec fn current(&self) -> LongPollRequest {
        self.request
    }

    /// Whether the subscription has ended.
    pub closed spec fn ended(&self) -> bool {
        self.terminated
    }

    /// Opens a subscription that polls first with `request`.
    pub fn new(request: LongPollRequest) -> (r: LongPollSession)
        ensures
            r.current() == request,
            !r.ended(),
    {
        LongPollSession { request, terminated: false }
    }

    /// The request for the next poll.
    pub fn request(&self) -> (r: &LongPollRequest)
        ensures
            *r == self.current(),
    {
        &self.request
    }

    /// Whether the subscription has ended.
    pub fn is_terminated(&self) -> (r: bool)
        ensures
            r == self.ended(),
    {
        self.terminated
    }

    /// The next poll to make; `None` once the subscription has ended.
    pub fn next_poll(&self) -> (r: Option<PreparedRequest>)
        ensures
            self.ended() ==> r is None,
            !self.ended() ==> (r matches Some(p) && p.url@ == poll_url_text(self.current())
                && p.accept_encoding@ == accept_encoding_text(Compression::Gzip) && p.accept@
                == accept_text(Encoding::Json) && p.authorization is None && p.form is None),
    {
        if self.terminated {
            None
        } else {
            Some(self.request.prepare())
        }
    }

    /// Takes in the outcome of the poll just made and returns the items it
    /// yields, as `tick` describes. The updates may be of any type: the
    /// decoded documents, or values read from them (where reading one
    /// fails, the outcome to hand in is that error).
    pub fn advance<R>(&mut self, outcome: Result<LongPollSuccess<R>, VkApiError>) -> (items: Vec<
        Result<R, VkApiError>,
    >)
        requires
            !old(self).ended(),
        ensures
            (final(self).current(), final(self).ended(), items@) == tick(old(self).current(), outcome),
    {
        match outcome {
            Ok(s) => {
                let ghost all = s.updates@;
                self.request.ts = s.ts;
                let mut rest = s.updates;
                let mut items: Vec<Result<R, VkApiError>> = Vec::new();
                while rest.len() > 0
                    invariant
                        items@.len() + rest@.len() == all.len(),
                        rest@ == all.subrange(items@.len() as int, all.len() as int),
                        forall|i: int|
                            0 <= i < items@.len() ==> #[trigger] items@[i] == Ok::<
                                R,
                                VkApiError,
                            >(all[i]),
                    decreases rest@.len(),
                {
                    let u = rest.remove(0);
                    items.push(Ok(u));
                }
                assert(items@ =~= all.map_values(|u: R| Ok::<R, VkApiError>(u)));
                items
            },
            Err(e) => {
                let recovered = match &e {
                    VkApiError::LongPoll(le) => match &le.ts {
                        Some(ts) => Some(ts.clone()),
                        None => None,
                    },
                    _ => None,
                };
                match recovered {
                    Some(ts) => {
                        self.request.ts = ts;
                        Vec::new()
                    },
                    None => {
                        self.terminated = true;
                        let mut items: Vec<Result<R, VkApiError>> = Vec::new();
                        items.push(Err(e));
                        assert(items@ =~= seq![Err::<R, VkApiError>(e)]);
                        items
                    },
                }
            },
        }
    }
}

} // verus!
