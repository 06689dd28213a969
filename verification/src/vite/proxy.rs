//! The request handler's decisions: where a request is forwarded, what is
//! sent along, how large a body may be, and what goes back to the caller.
//!
//! The host reads the inbound request, performs the outbound call and writes
//! the response. Between those steps it asks this module what to do, so each
//! inbound request leads to at most one outbound request and nothing is kept
//! from one request to the next.

use crate::text::{decimal, decimal_string, opt_text};
use crate::vite::options::ViteProxyOptions;
use vstd::prelude::*;

verus! {

/// Whether `http::Uri` accepts `text` when it is parsed with `str::parse`.
pub uninterp spec fn uri_parses(text: Seq<char>) -> bool;

/// Parses `text` with `<http::Uri as FromStr>::from_str` and reports whether
/// it was accepted. The answer depends on `text` alone; nothing more is
/// claimed of it.
#[verifier::external_body]
fn uri_accepts(text: &str) -> (ok: bool)
    ensures
        ok == uri_parses(text@),
{
    text.parse::<axum::http::Uri>().is_ok()
}

/// The largest request body that is forwarded: one gibibyte.
pub const MAX_PAYLOAD_SIZE: usize = 1073741824;

/// Why a request was not relayed.
#[derive(Clone, Copy, Debug, PartialEq, Eq, Structural)]
pub enum ProxyError {
    /// The backend's port is not known yet.
    BackendNotReady,
    /// The outbound address could not be built from the inbound one.
    BuildRequestFailure,
    /// The inbound body is larger than [`MAX_PAYLOAD_SIZE`], or could not be
    /// read.
    PayloadTooLarge,
    /// The backend could not be reached.
    UpstreamUnavailable,
    /// The backend's response could not be read to its end.
    RelayFailure,
}

/// The HTTP status that answers a failed request.
pub open spec fn status_of(e: ProxyError) -> u16 {
    match e {
        ProxyError::BackendNotReady => 500,
        ProxyError::BuildRequestFailure => 500,
        ProxyError::PayloadTooLarge => 413,
        ProxyError::UpstreamUnavailable => 502,
        ProxyError::RelayFailure => 500,
    }
}

impl ProxyError {
    /// The HTTP status that answers the caller.
    pub fn status_code(&self) -> (code: u16)
        ensures
            code == status_of(*self),
    {
        match self {
            ProxyError::BackendNotReady => 500,
            ProxyError::BuildRequestFailure => 500,
            ProxyError::PayloadTooLarge => 413,
            ProxyError::UpstreamUnavailable => 502,
            ProxyError::RelayFailure => 500,
        }
    }
}

/// One header line: a name and the bytes of its value.
#[derive(Debug)]
pub struct Header {
    pub name: String,
    pub value: Vec<u8>,
}

/// What the contracts say of a header.
pub struct HeaderView {
    pub name: Seq<char>,
    pub value: Seq<u8>,
}

impl View for Header {
    type V = HeaderView;

    open spec fn view(&self) -> HeaderView {
        HeaderView { name: self.name@, value: self.value@ }
    }
}

/// What the contracts say of a list of headers: the same lines in the same
/// order.
pub open spec fn header_lines(headers: Seq<Header>) -> Seq<HeaderView> {
    headers.map_values(|h: Header| h@)
}

/// The address a request is forwarded to: the backend on `localhost` at
/// `port`, with the inbound path and query unchanged.
pub open spec fn forward_uri(port: u16, path_and_query: Seq<char>) -> Seq<char> {
    "http://localhost:"@ + decimal(port as nat) + path_and_query
}

/// The path and query of an inbound request; `/` where it has none.
pub open spec fn inbound_target(path_and_query: Option<Seq<char>>) -> Seq<char> {
    match path_and_query {
        Some(target) => target,
        None => "/"@,
    }
}

/// What the contracts say of an optional string slice.
pub open spec fn target_view(path_and_query: Option<&str>) -> Option<Seq<char>> {
    match path_and_query {
        Some(target) => Some(target@),
        None => None,
    }
}

/// Builds the outbound address for an inbound path and query.
pub fn build_forward_uri(port: u16, path_and_query: Option<&str>) -> (out: Result<
    String,
    ProxyError,
>)
    ensures
        out is Ok <==> uri_parses(forward_uri(port, inbound_target(target_view(path_and_query)))),
        out is Ok ==> out->Ok_0@ == forward_uri(port, inbound_target(target_view(path_and_query))),
        out is Err ==> out->Err_0 == ProxyError::BuildRequestFailure,
{
    let uri = match path_and_query {
        Some(target) => forward_uri_text(port, target),
        None => forward_uri_text(port, "/"),
    };
    if uri_accepts(uri.as_str()) {
        Ok(uri)
    } else {
        Err(ProxyError::BuildRequestFailure)
    }
}

/// Builds the outbound address for a path and query, before it is checked:
/// [`build_forward_uri`] goes through here.
pub fn forward_uri_text(port: u16, path_and_query: &str) -> (uri: String)
    ensures
        uri@ == forward_uri(port, path_and_query@),
{
    let mut uri = String::from_str("http://localhost:");
    let number = decimal_string(port as u64);
    uri.append(number.as_str());
    uri.append(path_and_query);
    uri
}

/// For every path and every query, the outbound address is
/// `http://localhost:<port><path>?<query>`, character for character.
pub proof fn lemma_path_and_query_preserved(port: u16, path: Seq<char>, query: Seq<char>)
    ensures
        forward_uri(port, path + "?"@ + query) == "http://localhost:"@ + decimal(port as nat) + path
            + "?"@ + query,
        forward_uri(port, path + "?"@ + query).subrange(
            forward_uri(port, Seq::empty()).len() as int,
            forward_uri(port, path + "?"@ + query).len() as int,
        ) == path + "?"@ + query,
{
    let head = "http://localhost:"@ + decimal(port as nat);
    let tail = path + "?"@ + query;
    assert(forward_uri(port, Seq::empty()) == head);
    assert((head + tail).subrange(head.len() as int, (head + tail).len() as int) == tail);
    assert(head + (path + "?"@ + query) == head + path + "?"@ + query);
}

/// Whether a body of `len` bytes is forwarded.
pub open spec fn payload_allowed(len: nat) -> bool {
    len <= MAX_PAYLOAD_SIZE
}

/// Whether a body of `len` bytes is within the limit.
pub fn check_payload_size(len: usize) -> (out: Result<(), ProxyError>)
    ensures
        out is Ok <==> payload_allowed(len as nat),
        out is Err ==> out->Err_0 == ProxyError::PayloadTooLarge,
{
    if len > MAX_PAYLOAD_SIZE {
        Err(ProxyError::PayloadTooLarge)
    } else {
        Ok(())
    }
}

/// A body of exactly the limit is forwarded; one byte more is refused.
pub proof fn lemma_payload_boundary()
    ensures
        payload_allowed(1073741824),
        !payload_allowed(1073741825),
        forall|len: nat| payload_allowed(len) <==> len <= 1073741824,
{
}

/// The bytes of the chunks of a body, one after the other.
pub open spec fn joined(chunks: Seq<Vec<u8>>) -> Seq<u8>
    decreases chunks.len(),
{
    if chunks.len() == 0 {
        Seq::empty()
    } else {
        joined(chunks.drop_last()) + chunks.last()@
    }
}

/// An inbound body while it is being read, never larger than the limit.
#[derive(Debug)]
pub struct BodyBuffer {
    bytes: Vec<u8>,
}

impl View for BodyBuffer {
    type V = Seq<u8>;

    closed spec fn view(&self) -> Seq<u8> {
        self.bytes@
    }
}

impl BodyBuffer {
    /// The bytes read so far are not more than the limit.
    pub open spec fn wf(&self) -> bool {
        payload_allowed(self@.len())
    }

    /// An empty body.
    pub fn new() -> (buffer: Self)
        ensures
            buffer.wf(),
            buffer@ == Seq::<u8>::empty(),
    {
        BodyBuffer { bytes: Vec::new() }
    }

    /// The number of bytes read so far.
    pub fn len(&self) -> (n: usize)
        ensures
            n == self@.len(),
    {
        self.bytes.len()
    }

    /// Adds the next chunk, unless the body would pass the limit with it; a
    /// refused chunk leaves the buffer as it was.
    pub fn push_chunk(&mut self, chunk: &[u8]) -> (out: Result<(), ProxyError>)
        ensures
            old(self).wf() ==> final(self).wf(),
            payload_allowed(old(self)@.len() + chunk@.len()) ==> out is Ok && final(self)@ == old(
                self,
            )@ + chunk@,
            !payload_allowed(old(self)@.len() + chunk@.len()) ==> out == Err::<(), ProxyError>(
                ProxyError::PayloadTooLarge,
            ) && final(self)@ == old(self)@,
    {
        let held = self.bytes.len();
        if held > MAX_PAYLOAD_SIZE || chunk.len() > MAX_PAYLOAD_SIZE - held {
            return Err(ProxyError::PayloadTooLarge);
        }
        self.bytes.extend_from_slice(chunk);
        Ok(())
    }

    /// The body that was read.
    pub fn finish(self) -> (body: Vec<u8>)
        ensures
            body@ == self@,
    {
        self.bytes
    }
}

/// What reading an inbound body gave.
#[derive(Debug)]
pub enum BodyRead {
    /// The chunks of the body, in the order they arrived.
    Chunks(Vec<Vec<u8>>),
    /// The body could not be read to its end.
    Failed,
}

/// The body that is forwarded for what was read: all of its bytes, unless
/// reading failed or they are more than the limit.
pub open spec fn collected(read: BodyRead) -> Result<Seq<u8>, ProxyError> {
    match read {
        BodyRead::Chunks(chunks) => if payload_allowed(joined(chunks@).len()) {
            Ok(joined(chunks@))
        } else {
            Err(ProxyError::PayloadTooLarge)
        },
        BodyRead::Failed => Err(ProxyError::PayloadTooLarge),
    }
}

/// What the contracts say of a collected body.
pub open spec fn body_view(out: Result<Vec<u8>, ProxyError>) -> Result<Seq<u8>, ProxyError> {
    match out {
        Ok(body) => Ok(body@),
        Err(e) => Err(e),
    }
}

proof fn lemma_joined_grows(chunks: Seq<Vec<u8>>, n: int)
    requires
        0 <= n <= chunks.len(),
    ensures
        joined(chunks.take(n)).len() <= joined(chunks).len(),
    decreases chunks.len() - n,
{
    if n == chunks.len() {
        assert(chunks.take(n) == chunks);
    } else {
        lemma_joined_grows(chunks.drop_last(), n);
        assert(chunks.drop_last().take(n) == chunks.take(n));
    }
}

/// Drains an inbound body into memory, up to the limit.
pub fn collect_request_body(read: &BodyRead) -> (out: Result<Vec<u8>, ProxyError>)
    ensures
        body_view(out) == collected(*read),
{
    let chunks = match read {
        BodyRead::Chunks(chunks) => chunks,
        BodyRead::Failed => {
            return Err(ProxyError::PayloadTooLarge);
        },
    };
    let mut buffer = BodyBuffer::new();
    let mut i: usize = 0;
    while i < chunks.len()
        invariant
            i <= chunks.len(),
            *read == BodyRead::Chunks(*chunks),
            buffer.wf(),
            buffer@ == joined(chunks@.take(i as int)),
        decreases chunks.len() - i,
    {
        proof {
            assert(chunks@.take(i + 1).drop_last() == chunks@.take(i as int));
            assert(chunks@.take(i + 1).last() == chunks@[i as int]);
            assert(joined(chunks@.take(i + 1)) == joined(chunks@.take(i as int))
                + chunks@[i as int]@);
        }
        match buffer.push_chunk(chunks[i].as_slice()) {
            Ok(()) => {},
            Err(e) => {
                proof {
                    lemma_joined_grows(chunks@, i + 1);
                }
                return Err(e);
            },
        }
        i += 1;
    }
    assert(chunks@.take(chunks@.len() as int) == chunks@);
    Ok(buffer.finish())
}

/// The head of an inbound request.
#[derive(Debug)]
pub struct RequestHead {
    /// The method, as it was received.
    pub method: String,
    /// The path and query of the request target, if it has any.
    pub path_and_query: Option<String>,
    /// The header lines, in the order they were received.
    pub headers: Vec<Header>,
}

/// What the contracts say of a request head.
pub struct HeadView {
    pub method: Seq<char>,
    pub path_and_query: Option<Seq<char>>,
    pub headers: Seq<HeaderView>,
}

impl View for RequestHead {
    type V = HeadView;

    open spec fn view(&self) -> HeadView {
        HeadView {
            method: self.method@,
            path_and_query: opt_text(self.path_and_query),
            headers: header_lines(self.headers@),
        }
    }
}

/// The request that goes to the backend.
#[derive(Debug)]
pub struct ForwardRequest {
    pub uri: String,
    pub method: String,
    pub headers: Vec<Header>,
    pub body: Vec<u8>,
}

/// What the contracts say of an outbound request.
pub struct ForwardView {
    pub uri: Seq<char>,
    pub method: Seq<char>,
    pub headers: Seq<HeaderView>,
    pub body: Seq<u8>,
}

impl View for ForwardRequest {
    type V = ForwardView;

    open spec fn view(&self) -> ForwardView {
        ForwardView {
            uri: self.uri@,
            method: self.method@,
            headers: header_lines(self.headers@),
            body: self.body@,
        }
    }
}

/// An inbound request that was accepted for forwarding and still lacks its
/// body.
#[derive(Debug)]
pub struct PendingForward {
    pub uri: String,
    pub method: String,
    pub headers: Vec<Header>,
}

/// Puts the outbound request together: the address, and the inbound method,
/// headers and body as they are.
pub fn build_forward_request(
    uri: String,
    method: String,
    headers: Vec<Header>,
    body: Vec<u8>,
) -> (request: ForwardRequest)
    ensures
        request@ == (ForwardView {
            uri: uri@,
            method: method@,
            headers: header_lines(headers@),
            body: body@,
        }),
{
    ForwardRequest { uri, method, headers, body }
}

/// What becomes of an inbound request before its body is read: it is
/// refused while the port is unknown or when no address can be built,
/// otherwise its method and headers are kept for the outbound request.
pub open spec fn accepted(port: Option<u16>, head: HeadView) -> Result<ForwardView, ProxyError> {
    match port {
        None => Err(ProxyError::BackendNotReady),
        Some(p) => {
            let uri = forward_uri(p, inbound_target(head.path_and_query));
            if uri_parses(uri) {
                Ok(
                    ForwardView {
                        uri,
                        method: head.method,
                        headers: head.headers,
                        body: Seq::empty(),
                    },
                )
            } else {
                Err(ProxyError::BuildRequestFailure)
            }
        },
    }
}

/// The outbound request for an inbound one, or the reason there is none.
/// The port is looked at first, then the address, then the body.
pub open spec fn forward_plan(port: Option<u16>, head: HeadView, read: BodyRead) -> Result<
    ForwardView,
    ProxyError,
> {
    match accepted(port, head) {
        Err(e) => Err(e),
        Ok(pending) => match collected(read) {
            Err(e) => Err(e),
            Ok(body) => Ok(ForwardView { body, ..pending }),
        },
    }
}

/// What the contracts say of a pending request.
pub open spec fn pending_view(out: Result<PendingForward, ProxyError>) -> Result<
    ForwardView,
    ProxyError,
> {
    match out {
        Ok(p) => Ok(
            ForwardView {
                uri: p.uri@,
                method: p.method@,
                headers: header_lines(p.headers@),
                body: Seq::empty(),
            },
        ),
        Err(e) => Err(e),
    }
}

/// What the contracts say of a planned request.
pub open spec fn plan_view(out: Result<ForwardRequest, ProxyError>) -> Result<
    ForwardView,
    ProxyError,
> {
    match out {
        Ok(r) => Ok(r@),
        Err(e) => Err(e),
    }
}

/// Accepts or refuses an inbound request before any of its body is read.
pub fn begin_forward(options: &ViteProxyOptions, head: RequestHead) -> (out: Result<
    PendingForward,
    ProxyError,
>)
    ensures
        pending_view(out) == accepted(options.port, head@),
{
    let port = match options.port {
        Some(port) => port,
        None => {
            return Err(ProxyError::BackendNotReady);
        },
    };
    let built = match &head.path_and_query {
        Some(target) => build_forward_uri(port, Some(target.as_str())),
        None => build_forward_uri(port, None),
    };
    match built {
        Ok(uri) => Ok(PendingForward { uri, method: head.method, headers: head.headers }),
        Err(e) => Err(e),
    }
}

/// Completes an accepted request with the body that was read.
pub fn complete_forward(pending: PendingForward, read: &BodyRead) -> (out: Result<
    ForwardRequest,
    ProxyError,
>)
    ensures
        plan_view(out) == match collected(*read) {
            Err(e) => Err::<ForwardView, ProxyError>(e),
            Ok(body) => Ok(
                ForwardView {
                    uri: pending.uri@,
                    method: pending.method@,
                    headers: header_lines(pending.headers@),
                    body,
                },
            ),
        },
{
    match collect_request_body(read) {
        Ok(body) => Ok(
            build_forward_request(pending.uri, pending.method, pending.headers, body),
        ),
        Err(e) => Err(e),
    }
}

/// Plans the outbound request for an inbound one whose body was read.
pub fn plan_forward(options: &ViteProxyOptions, head: RequestHead, read: &BodyRead) -> (out: Result<
    ForwardRequest,
    ProxyError,
>)
    ensures
        plan_view(out) == forward_plan(options.port, head@, *read),
{
    match begin_forward(options, head) {
        Ok(pending) => complete_forward(pending, read),
        Err(e) => Err(e),
    }
}

/// What came of the outbound call.
#[derive(Debug)]
pub enum UpstreamOutcome {
    /// The backend could not be reached: refused, reset or timed out.
    Unreachable,
    /// The backend answered. `body` is `None` where its body could not be
    /// read to the end.
    Response { status: u16, headers: Vec<Header>, body: Option<Vec<u8>> },
}

/// The response that goes back to the caller.
#[derive(Debug)]
pub struct ProxiedResponse {
    pub status: u16,
    pub headers: Vec<Header>,
    pub body: Vec<u8>,
}

/// What the contracts say of a relayed response.
pub struct ResponseView {
    pub status: u16,
    pub headers: Seq<HeaderView>,
    pub body: Seq<u8>,
}

impl View for ProxiedResponse {
    type V = ResponseView;

    open spec fn view(&self) -> ResponseView {
        ResponseView {
            status: self.status,
            headers: header_lines(self.headers@),
            body: self.body@,
        }
    }
}

/// What the caller gets for the outcome of the outbound call: the backend's
/// status, headers and body as they are, or the reason there is none.
pub open spec fn relayed_response(outcome: UpstreamOutcome) -> Result<ResponseView, ProxyError> {
    match outcome {
        UpstreamOutcome::Unreachable => Err(ProxyError::UpstreamUnavailable),
        UpstreamOutcome::Response { status, headers, body } => match body {
            Some(bytes) => Ok(
                ResponseView { status, headers: header_lines(headers@), body: bytes@ },
            ),
            None => Err(ProxyError::RelayFailure),
        },
    }
}

/// What the contracts say of the result of a relay.
pub open spec fn relay_view(out: Result<ProxiedResponse, ProxyError>) -> Result<
    ResponseView,
    ProxyError,
> {
    match out {
        Ok(r) => Ok(r@),
        Err(e) => Err(e),
    }
}

/// Turns the outcome of the outbound call into the caller's response.
pub fn relay_response(outcome: UpstreamOutcome) -> (out: Result<ProxiedResponse, ProxyError>)
    ensures
        relay_view(out) == relayed_response(outcome),
{
    match outcome {
        UpstreamOutcome::Unreachable => Err(ProxyError::UpstreamUnavailable),
        UpstreamOutcome::Response { status, headers, body } => match body {
            Some(bytes) => Ok(ProxiedResponse { status, headers, body: bytes }),
            None => Err(ProxyError::RelayFailure),
        },
    }
}

/// The status that the caller sees for a proxied request.
pub open spec fn answered_status(out: Result<ResponseView, ProxyError>) -> u16 {
    match out {
        Ok(r) => r.status,
        Err(e) => status_of(e),
    }
}

/// While the port is unknown every request is refused with status 500,
/// whatever it holds, and nothing is forwarded.
pub proof fn lemma_not_ready_without_port(head: HeadView, read: BodyRead)
    ensures
        accepted(None, head) == Err::<ForwardView, ProxyError>(ProxyError::BackendNotReady),
        forward_plan(None, head, read) == Err::<ForwardView, ProxyError>(
            ProxyError::BackendNotReady,
        ),
        status_of(ProxyError::BackendNotReady) == 500,
{
}

/// The outbound request carries the inbound header lines unchanged: the
/// same lines in the same order, hence the same multiset of lines; and the
/// same method.
pub proof fn lemma_headers_transparent(port: Option<u16>, head: HeadView, read: BodyRead)
    requires
        forward_plan(port, head, read) is Ok,
    ensures
        forward_plan(port, head, read)->Ok_0.headers == head.headers,
        forward_plan(port, head, read)->Ok_0.headers.to_multiset() == head.headers.to_multiset(),
        forward_plan(port, head, read)->Ok_0.method == head.method,
{
}

/// A body larger than the limit is answered with status 413 and no outbound
/// request exists; a body within the limit is forwarded whole.
pub proof fn lemma_payload_limit(port: u16, head: HeadView, chunks: Vec<Vec<u8>>)
    requires
        uri_parses(forward_uri(port, inbound_target(head.path_and_query))),
    ensures
        !payload_allowed(joined(chunks@).len()) ==> forward_plan(
            Some(port),
            head,
            BodyRead::Chunks(chunks),
        ) == Err::<ForwardView, ProxyError>(ProxyError::PayloadTooLarge),
        status_of(ProxyError::PayloadTooLarge) == 413,
        payload_allowed(joined(chunks@).len()) ==> forward_plan(
            Some(port),
            head,
            BodyRead::Chunks(chunks),
        ) is Ok && forward_plan(Some(port), head, BodyRead::Chunks(chunks))->Ok_0.body == joined(
            chunks@,
        ),
{
}

/// A response of the backend reaches the caller with the same status, the
/// same header lines and the same body.
pub proof fn lemma_response_verbatim(status: u16, headers: Vec<Header>, body: Vec<u8>)
    ensures
        relayed_response(UpstreamOutcome::Response { status, headers, body: Some(body) }) == Ok::<
            ResponseView,
            ProxyError,
        >(ResponseView { status, headers: header_lines(headers@), body: body@ }),
{
}

/// A backend that cannot be reached is answered with status 502, and one
/// whose body breaks off with status 500.
pub proof fn lemma_upstream_failures(status: u16, headers: Vec<Header>)
    ensures
        answered_status(relayed_response(UpstreamOutcome::Unreachable)) == 502,
        answered_status(
            relayed_response(UpstreamOutcome::Response { status, headers, body: None }),
        ) == 500,
{
}

/// Two requests that hold the same method, target, header lines and body
/// bytes lead to the same outbound request under the same port, however
/// their bodies were cut into chunks: nothing of an earlier request is kept
/// that could change a later one.
pub proof fn lemma_repeated_request(
    port: Option<u16>,
    first: HeadView,
    first_body: Vec<Vec<u8>>,
    second: HeadView,
    second_body: Vec<Vec<u8>>,
)
    requires
        first == second,
        joined(first_body@) == joined(second_body@),
    ensures
        forward_plan(port, first, BodyRead::Chunks(first_body)) == forward_plan(
            port,
            second,
            BodyRead::Chunks(second_body),
        ),
{
}

} // verus!
